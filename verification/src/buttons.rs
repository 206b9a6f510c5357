use vstd::prelude::*;

verus! {

pub const A_BUTTON: u16 = 0x8000;
pub const B_BUTTON: u16 = 0x4000;
pub const L_TRIG: u16 = 0x0020;
pub const R_TRIG: u16 = 0x0010;
pub const Z_TRIG: u16 = 0x2000;
pub const START_BUTTON: u16 = 0x1000;
pub const U_JPAD: u16 = 0x0800;
pub const L_JPAD: u16 = 0x0200;
pub const R_JPAD: u16 = 0x0100;
pub const D_JPAD: u16 = 0x0400;
pub const U_CBUTTONS: u16 = 0x0008;
pub const L_CBUTTONS: u16 = 0x0002;
pub const R_CBUTTONS: u16 = 0x0001;
pub const D_CBUTTONS: u16 = 0x0004;

/// The mask `m` when `flag` holds, else no bits.
pub open spec fn bit_if(flag: bool, m: u16) -> u16 {
    if flag { m } else { 0 }
}

/// The controller word with exactly the bits of the pressed buttons set.
pub open spec fn button_word(
    a: bool, b: bool, l: bool, r: bool, z: bool, start: bool,
    du: bool, dl: bool, dr: bool, dd: bool, cu: bool, cl: bool, cr: bool, cd: bool,
) -> u16 {
    0u16 | bit_if(a, A_BUTTON) | bit_if(b, B_BUTTON) | bit_if(l, L_TRIG) | bit_if(r, R_TRIG)
        | bit_if(z, Z_TRIG) | bit_if(start, START_BUTTON) | bit_if(du, U_JPAD)
        | bit_if(dl, L_JPAD) | bit_if(dr, R_JPAD) | bit_if(dd, D_JPAD)
        | bit_if(cu, U_CBUTTONS) | bit_if(cl, L_CBUTTONS) | bit_if(cr, R_CBUTTONS)
        | bit_if(cd, D_CBUTTONS)
}

/// Packs the fourteen button states into the controller word.
pub fn buttons_to_int(
    button_a: bool,
    button_b: bool,
    button_l: bool,
    button_r: bool,
    button_z: bool,
    button_start: bool,
    button_du: bool,
    button_dl: bool,
    button_dr: bool,
    button_dd: bool,
    button_cu: bool,
    button_cl: bool,
    button_cr: bool,
    button_cd: bool,
) -> (button: u16)
    ensures
        button == button_word(
            button_a, button_b, button_l, button_r, button_z, button_start,
            button_du, button_dl, button_dr, button_dd, button_cu, button_cl,
            button_cr, button_cd,
        ),
        (button & A_BUTTON != 0) == button_a,
        (button & B_BUTTON != 0) == button_b,
        (button & L_TRIG != 0) == button_l,
        (button & R_TRIG != 0) == button_r,
        (button & Z_TRIG != 0) == button_z,
        (button & START_BUTTON != 0) == button_start,
        (button & U_JPAD != 0) == button_du,
        (button & L_JPAD != 0) == button_dl,
        (button & R_JPAD != 0) == button_dr,
        (button & D_JPAD != 0) == button_dd,
        (button & U_CBUTTONS != 0) == button_cu,
        (button & L_CBUTTONS != 0) == button_cl,
        (button & R_CBUTTONS != 0) == button_cr,
        (button & D_CBUTTONS != 0) == button_cd,
        button & 0x00C0u16 == 0,
{
    let mut button: u16 = 0;
    button = button | (if button_a { A_BUTTON } else { 0 });
    button = button | (if button_b { B_BUTTON } else { 0 });
    button = button | (if button_l { L_TRIG } else { 0 });
    button = button | (if button_r { R_TRIG } else { 0 });
    button = button | (if button_z { Z_TRIG } else { 0 });
    button = button | (if button_start { START_BUTTON } else { 0 });
    button = button | (if button_du { U_JPAD } else { 0 });
    button = button | (if button_dl { L_JPAD } else { 0 });
    button = button | (if button_dr { R_JPAD } else { 0 });
    button = button | (if button_dd { D_JPAD } else { 0 });
    button = button | (if button_cu { U_CBUTTONS } else { 0 });
    button = button | (if button_cl { L_CBUTTONS } else { 0 });
    button = button | (if button_cr { R_CBUTTONS } else { 0 });
    button = button | (if button_cd { D_CBUTTONS } else { 0 });
    proof {
        lemma_button_word_bits(
            button_a, button_b, button_l, button_r, button_z, button_start,
            button_du, button_dl, button_dr, button_dd, button_cu, button_cl,
            button_cr, button_cd,
        );
    }
    button
}

/// Each button's bit is set in the controller word exactly when that
/// button is pressed, and the two bits no button owns (0x0040, 0x0080) are
/// never set; together these fix every bit of the word.
pub proof fn lemma_button_word_bits(
    a: bool, b: bool, l: bool, r: bool, z: bool, start: bool,
    du: bool, dl: bool, dr: bool, dd: bool, cu: bool, cl: bool, cr: bool, cd: bool,
)
    ensures
        ({
            let w = button_word(a, b, l, r, z, start, du, dl, dr, dd, cu, cl, cr, cd);
            &&& (w & A_BUTTON != 0) == a
            &&& (w & B_BUTTON != 0) == b
            &&& (w & L_TRIG != 0) == l
            &&& (w & R_TRIG != 0) == r
            &&& (w & Z_TRIG != 0) == z
            &&& (w & START_BUTTON != 0) == start
            &&& (w & U_JPAD != 0) == du
            &&& (w & L_JPAD != 0) == dl
            &&& (w & R_JPAD != 0) == dr
            &&& (w & D_JPAD != 0) == dd
            &&& (w & U_CBUTTONS != 0) == cu
            &&& (w & L_CBUTTONS != 0) == cl
            &&& (w & R_CBUTTONS != 0) == cr
            &&& (w & D_CBUTTONS != 0) == cd
            &&& w & 0x00C0u16 == 0
        }),
{
    let w = button_word(a, b, l, r, z, start, du, dl, dr, dd, cu, cl, cr, cd);
    let ba = bit_if(a, A_BUTTON);
    let bb = bit_if(b, B_BUTTON);
    let bl = bit_if(l, L_TRIG);
    let br = bit_if(r, R_TRIG);
    let bz = bit_if(z, Z_TRIG);
    let bs = bit_if(start, START_BUTTON);
    let bdu = bit_if(du, U_JPAD);
    let bdl = bit_if(dl, L_JPAD);
    let bdr = bit_if(dr, R_JPAD);
    let bdd = bit_if(dd, D_JPAD);
    let bcu = bit_if(cu, U_CBUTTONS);
    let bcl = bit_if(cl, L_CBUTTONS);
    let bcr = bit_if(cr, R_CBUTTONS);
    let bcd = bit_if(cd, D_CBUTTONS);
    assert(w == 0u16 | ba | bb | bl | br | bz | bs | bdu | bdl | bdr | bdd | bcu | bcl | bcr | bcd);
    assert({
        let v = 0u16 | ba | bb | bl | br | bz | bs | bdu | bdl | bdr | bdd | bcu | bcl | bcr | bcd;
        &&& (ba == 0x8000u16 || ba == 0) && (bb == 0x4000u16 || bb == 0) && (bl == 0x0020u16 || bl == 0)
        &&& (br == 0x0010u16 || br == 0) && (bz == 0x2000u16 || bz == 0) && (bs == 0x1000u16 || bs == 0)
        &&& (bdu == 0x0800u16 || bdu == 0) && (bdl == 0x0200u16 || bdl == 0) && (bdr == 0x0100u16 || bdr == 0)
        &&& (bdd == 0x0400u16 || bdd == 0) && (bcu == 0x0008u16 || bcu == 0) && (bcl == 0x0002u16 || bcl == 0)
        &&& (bcr == 0x0001u16 || bcr == 0) && (bcd == 0x0004u16 || bcd == 0)
    } ==> {
        let v = 0u16 | ba | bb | bl | br | bz | bs | bdu | bdl | bdr | bdd | bcu | bcl | bcr | bcd;
        &&& (v & 0x8000u16 != 0) == (ba != 0) && (v & 0x4000u16 != 0) == (bb != 0)
        &&& (v & 0x0020u16 != 0) == (bl != 0) && (v & 0x0010u16 != 0) == (br != 0)
        &&& (v & 0x2000u16 != 0) == (bz != 0) && (v & 0x1000u16 != 0) == (bs != 0)
        &&& (v & 0x0800u16 != 0) == (bdu != 0) && (v & 0x0200u16 != 0) == (bdl != 0)
        &&& (v & 0x0100u16 != 0) == (bdr != 0) && (v & 0x0400u16 != 0) == (bdd != 0)
        &&& (v & 0x0008u16 != 0) == (bcu != 0) && (v & 0x0002u16 != 0) == (bcl != 0)
        &&& (v & 0x0001u16 != 0) == (bcr != 0) && (v & 0x0004u16 != 0) == (bcd != 0)
        &&& v & 0x00C0u16 == 0
    }) by (bit_vector);
}

} // verus!
