use vstd::prelude::*;
use crate::block::Block;
use crate::digest::hex_lower;
use crate::gamepad::GamePad;

verus! {

/// The error type the browser bindings return.
#[verifier::external_type_specification]
#[verifier::external_body]
pub struct ExJsError(wasm_bindgen::JsError);

/// A pad as the browser hands it over.
#[derive(Clone, Copy, Debug)]
pub struct GamePadWeb {
    pub button: u16,
    pub stick_x: i8,
    pub stick_y: i8,
}

impl GamePadWeb {
    pub fn new(button: u16, stick_x: i8, stick_y: i8) -> (res: Result<GamePadWeb, wasm_bindgen::JsError>)
        ensures
            res matches Ok(p) && p.button == button && p.stick_x == stick_x && p.stick_y == stick_y,
    {
        Ok(GamePadWeb { button, stick_x, stick_y })
    }

    /// The pads of a solution handed over by the browser, in order.
    pub fn to_pads(solution: &Vec<GamePadWeb>) -> (pads: Vec<GamePad>)
        ensures
            pads@.len() == solution@.len(),
            forall|i: int| 0 <= i < pads@.len() ==> #[trigger] pads@[i] == (GamePad {
                button: solution@[i].button,
                stick_x: solution@[i].stick_x,
                stick_y: solution@[i].stick_y,
            }),
    {
        let mut solution_pads: Vec<GamePad> = Vec::new();
        let n = solution.len();
        let mut i: usize = 0;
        while i < n
            invariant
                0 <= i <= n,
                n == solution@.len(),
                solution_pads@.len() == i,
                forall|j: int| 0 <= j < i ==> #[trigger] solution_pads@[j] == (GamePad {
                    button: solution@[j].button,
                    stick_x: solution@[j].stick_x,
                    stick_y: solution@[j].stick_y,
                }),
            decreases n - i,
        {
            let webpad = solution[i];
            let pad = GamePad::new(webpad.button, webpad.stick_x, webpad.stick_y);
            solution_pads.push(pad);
            i += 1;
        }
        solution_pads
    }
}

/// What the browser shows of a block.
pub struct LightBlock {
    pub prev_hash: String,
    pub block_height: u128,
    pub timestamp: String,
    pub miner_name: String,
}

impl LightBlock {
    /// The predecessor hash in lower-case hex, the height, the timestamp's
    /// text and the miner name of `block`.
    pub fn from_block(block: Block) -> (light: LightBlock)
        ensures
            light.prev_hash@ == hex_lower(block.prev_hash@),
            light.block_height == block.block_height,
            light.timestamp@ == block.timestamp.text(),
            light.miner_name@ == block.miner_name@,
    {
        LightBlock {
            prev_hash: block.prev_hash.to_hex(),
            block_height: block.block_height,
            timestamp: block.timestamp.to_text(),
            miner_name: block.miner_name,
        }
    }
}

} // verus!
