use vstd::prelude::*;

verus! {

/// The sixteen keys of the pad, each either down (`true`) or up.
pub struct Keys {
    key: [bool; 16],
}

/// The pad code that a host key stands for, if any. Host keys are named by the
/// character they type: the left four columns of a QWERTY keyboard
/// (`1234`, `qwer`, `asdf`, `zxcv`) form the 4x4 pad.
pub open spec fn host_key_spec(c: char) -> Option<u8> {
    if c == '1' { Some(0x1u8) }
    else if c == '2' { Some(0x2u8) }
    else if c == '3' { Some(0x3u8) }
    else if c == '4' { Some(0xCu8) }
    else if c == 'q' { Some(0x4u8) }
    else if c == 'w' { Some(0x5u8) }
    else if c == 'e' { Some(0x6u8) }
    else if c == 'r' { Some(0xDu8) }
    else if c == 'a' { Some(0x7u8) }
    else if c == 's' { Some(0x8u8) }
    else if c == 'd' { Some(0x9u8) }
    else if c == 'f' { Some(0xEu8) }
    else if c == 'z' { Some(0xAu8) }
    else if c == 'x' { Some(0x0u8) }
    else if c == 'c' { Some(0xBu8) }
    else if c == 'v' { Some(0xFu8) }
    else { None }
}

/// Maps a host key, named by the character it types, to its pad code.
pub fn host_key_code(c: char) -> (r: Option<u8>)
    ensures
        r == host_key_spec(c),
        r matches Some(k) ==> k < 16,
{
    match c {
        '1' => Some(0x1),
        '2' => Some(0x2),
        '3' => Some(0x3),
        '4' => Some(0xC),
        'q' => Some(0x4),
        'w' => Some(0x5),
        'e' => Some(0x6),
        'r' => Some(0xD),
        'a' => Some(0x7),
        's' => Some(0x8),
        'd' => Some(0x9),
        'f' => Some(0xE),
        'z' => Some(0xA),
        'x' => Some(0x0),
        'c' => Some(0xB),
        'v' => Some(0xF),
        _ => None,
    }
}

impl View for Keys {
    type V = Seq<bool>;

    closed spec fn view(&self) -> Seq<bool> {
        self.key@
    }
}

impl Keys {
    /// A pad with every key up.
    pub fn new() -> (r: Keys)
        ensures
            r@ == Seq::new(16, |_i: int| false),
    {
        let r = Keys { key: [false; 16] };
        assert(r@ =~= Seq::new(16, |_i: int| false));
        r
    }

    /// Whether the key with code `id` is down.
    pub fn is_down(&self, id: usize) -> (r: bool)
        requires
            id < 16,
        ensures
            r == self@[id as int],
    {
        self.key[id]
    }

    /// Records that the key with code `code` went down (`pressed`) or up.
    pub fn set(&mut self, code: usize, pressed: bool)
        requires
            code < 16,
        ensures
            final(self)@ == old(self)@.update(code as int, pressed),
    {
        self.key[code] = pressed;
    }

    /// Records a host key transition; a host key outside the pad is ignored.
    pub fn set_keys(&mut self, key: Option<char>, state: bool)
        ensures
            final(self)@ == (match key {
                Some(c) => match host_key_spec(c) {
                    Some(k) => old(self)@.update(k as int, state),
                    None => old(self)@,
                },
                None => old(self)@,
            }),
    {
        if let Some(c) = key {
            if let Some(k) = host_key_code(c) {
                self.set(k as usize, state);
            }
        }
    }
}

} // verus!
