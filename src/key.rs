use vstd::prelude::*;

verus! {

/// One physical input event. Keys are compared by equality only.
///
/// Letters come as `L*` (lower case) and `U*` (upper case); a modifier such
/// as `Shift` or `Ctrl` follows the key it qualifies within a chord.
#[derive(Debug, Clone, Copy, PartialEq, Eq, Hash, Structural)]
pub enum Key {
    LA, LB, LC, LD, LE, LF, LG, LH, LI, LJ, LK, LL, LM,
    LN, LO, LP, LQ, LR, LS, LT, LU, LV, LW, LX, LY, LZ,
    UA, UB, UC, UD, UE, UF, UG, UH, UI, UJ, UK, UL, UM,
    UN, UO, UP, UQ, UR, US, UT, UU, UV, UW, UX, UY, UZ,
    N0, N1, N2, N3, N4, N5, N6, N7, N8, N9,
    Colon,
    Caret,
    Esc,
    Enter,
    Backspace,
    Delete,
    Home,
    End,
    Up,
    Down,
    Left,
    Right,
    Tab,
    Space,
    Shift,
    Ctrl,
    Alt,
    Char(char),
    Unknown,
}

} // verus!
