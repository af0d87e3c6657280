use vstd::prelude::*;

verus! {

/// The key of the pad that a key of the host keyboard stands for, by the text that the
/// keyboard reports for it: `1 2 3 4`, `a z e r`, `q s d f` and `x c` have one, nothing else.
pub open spec fn key_button(key: Seq<char>) -> Option<usize> {
    if key.len() != 1 {
        None
    } else {
        match key[0] {
            '1' => Some(0x1usize),
            '2' => Some(0x2usize),
            '3' => Some(0x3usize),
            '4' => Some(0x4usize),
            'a' => Some(0x5usize),
            'z' => Some(0x6usize),
            'e' => Some(0x7usize),
            'r' => Some(0x8usize),
            'q' => Some(0x9usize),
            's' => Some(0xEusize),
            'd' => Some(0xAusize),
            'f' => Some(0x0usize),
            'x' => Some(0xBusize),
            'c' => Some(0xFusize),
            _ => None,
        }
    }
}

/// The key of the pad that the keyboard key with the text `key` stands for, if there is one.
pub fn key2btn(key: &str) -> (btn: Option<usize>)
    ensures
        btn == key_button(key@),
        btn matches Some(index) ==> index < 16,
{
    if key.unicode_len() != 1 {
        return None;
    }
    match key.get_char(0) {
        '1' => Some(0x1),
        '2' => Some(0x2),
        '3' => Some(0x3),
        '4' => Some(0x4),
        'a' => Some(0x5),
        'z' => Some(0x6),
        'e' => Some(0x7),
        'r' => Some(0x8),
        'q' => Some(0x9),
        's' => Some(0xE),
        'd' => Some(0xA),
        'f' => Some(0x0),
        'x' => Some(0xB),
        'c' => Some(0xF),
        _ => None,
    }
}

} // verus!
