use vstd::prelude::*;

use vstd::string::StringExecFns;

use crate::{Address, Byte};

verus! {

pub type IRegister = Register<Address>;
pub type VRegister = Register<Byte>;

/// Representation of one of the CPU's Registers
#[derive(Clone, Copy, Debug)]
pub struct Register<T>(pub T);

impl<T> Register<T> {
    /// Loads the value in the register
    pub fn load(&mut self, value: T)
        ensures
            final(self).0 == value,
    {
        self.0 = value
    }
}

impl<T: Copy> Register<T> {
    /// Returns the current value of the register
    pub fn get(&self) -> (value: T)
        ensures
            value == self.0,
    {
        self.0
    }
}

/// The lowercase hexadecimal digit character for a value below sixteen.
pub open spec fn hex_char_spec(value: Byte) -> char {
    if value == 0 {
        '0'
    } else if value == 1 {
        '1'
    } else if value == 2 {
        '2'
    } else if value == 3 {
        '3'
    } else if value == 4 {
        '4'
    } else if value == 5 {
        '5'
    } else if value == 6 {
        '6'
    } else if value == 7 {
        '7'
    } else if value == 8 {
        '8'
    } else if value == 9 {
        '9'
    } else if value == 10 {
        'a'
    } else if value == 11 {
        'b'
    } else if value == 12 {
        'c'
    } else if value == 13 {
        'd'
    } else if value == 14 {
        'e'
    } else {
        'f'
    }
}

/// Returns the one-character text of a hexadecimal digit.
fn hex_str(value: Byte) -> (s: &'static str)
    requires
        value < 16,
    ensures
        s@ == seq![hex_char_spec(value)],
{
    if value == 0 {
        proof {
            reveal_strlit("0");
            assert("0"@ =~= seq!['0']);
        }
        "0"
    } else if value == 1 {
        proof {
            reveal_strlit("1");
            assert("1"@ =~= seq!['1']);
        }
        "1"
    } else if value == 2 {
        proof {
            reveal_strlit("2");
            assert("2"@ =~= seq!['2']);
        }
        "2"
    } else if value == 3 {
        proof {
            reveal_strlit("3");
            assert("3"@ =~= seq!['3']);
        }
        "3"
    } else if value == 4 {
        proof {
            reveal_strlit("4");
            assert("4"@ =~= seq!['4']);
        }
        "4"
    } else if value == 5 {
        proof {
            reveal_strlit("5");
            assert("5"@ =~= seq!['5']);
        }
        "5"
    } else if value == 6 {
        proof {
            reveal_strlit("6");
            assert("6"@ =~= seq!['6']);
        }
        "6"
    } else if value == 7 {
        proof {
            reveal_strlit("7");
            assert("7"@ =~= seq!['7']);
        }
        "7"
    } else if value == 8 {
        proof {
            reveal_strlit("8");
            assert("8"@ =~= seq!['8']);
        }
        "8"
    } else if value == 9 {
        proof {
            reveal_strlit("9");
            assert("9"@ =~= seq!['9']);
        }
        "9"
    } else if value == 10 {
        proof {
            reveal_strlit("a");
            assert("a"@ =~= seq!['a']);
        }
        "a"
    } else if value == 11 {
        proof {
            reveal_strlit("b");
            assert("b"@ =~= seq!['b']);
        }
        "b"
    } else if value == 12 {
        proof {
            reveal_strlit("c");
            assert("c"@ =~= seq!['c']);
        }
        "c"
    } else if value == 13 {
        proof {
            reveal_strlit("d");
            assert("d"@ =~= seq!['d']);
        }
        "d"
    } else if value == 14 {
        proof {
            reveal_strlit("e");
            assert("e"@ =~= seq!['e']);
        }
        "e"
    } else {
        proof {
            reveal_strlit("f");
            assert("f"@ =~= seq!['f']);
        }
        "f"
    }
}

/// The text describing a register holding the given byte: the value is
/// written in hexadecimal, without leading zeros.
pub open spec fn register_text_spec(value: Byte) -> Seq<char> {
    if value < 16 {
        "Register: [0x"@ + seq![hex_char_spec(value)] + "]"@
    } else {
        "Register: [0x"@ + seq![hex_char_spec(value / 16), hex_char_spec(value % 16)] + "]"@
    }
}

impl Register<Byte> {
    /// Renders the register as text, with its content in hexadecimal.
    pub fn describe(&self) -> (text: String)
        ensures
            text@ == register_text_spec(self.0),
    {
        let mut text = String::from_str("Register: [0x");
        if self.0 >= 16 {
            text.append(hex_str(self.0 / 16));
        }
        text.append(hex_str(self.0 % 16));
        text.append("]");
        proof {
            if self.0 < 16 {
                assert(self.0 % 16 == self.0);
                assert(text@ =~= register_text_spec(self.0));
            } else {
                assert(seq![hex_char_spec(self.0 / 16)] + seq![hex_char_spec(self.0 % 16)]
                    =~= seq![hex_char_spec(self.0 / 16), hex_char_spec(self.0 % 16)]);
                assert(text@ =~= register_text_spec(self.0));
            }
        }
        text
    }
}

impl Default for IRegister {
    /// Builds the default for the IRegister
    fn default() -> (reg: Self)
        ensures
            reg.0 == 0,
    {
        Register(0)
    }
}

impl Default for VRegister {
    /// Builds the default for the VRegisters
    fn default() -> (reg: Self)
        ensures
            reg.0 == 0,
    {
        Register(0)
    }
}

impl PartialEq<Byte> for VRegister {
    /// A V-Register equals a byte exactly when it currently holds that byte.
    fn eq(&self, other: &Byte) -> (r: bool)
        ensures
            r == (self.0 == *other),
    {
        self.0 == *other
    }
}

impl vstd::std_specs::cmp::PartialEqSpecImpl<Byte> for VRegister {
    open spec fn obeys_eq_spec() -> bool {
        true
    }

    open spec fn eq_spec(&self, other: &Byte) -> bool {
        self.0 == *other
    }
}

impl PartialEq<Address> for IRegister {
    /// An I-Register equals an address exactly when it currently holds that address.
    fn eq(&self, other: &Address) -> (r: bool)
        ensures
            r == (self.0 == *other),
    {
        self.0 == *other
    }
}

impl vstd::std_specs::cmp::PartialEqSpecImpl<Address> for IRegister {
    open spec fn obeys_eq_spec() -> bool {
        true
    }

    open spec fn eq_spec(&self, other: &Address) -> bool {
        self.0 == *other
    }
}

impl PartialEq for IRegister {
    /// Two registers are equal exactly when they hold the same value.
    fn eq(&self, other: &IRegister) -> (r: bool)
        ensures
            r == (self.0 == other.0),
    {
        self.0 == other.0
    }
}

impl vstd::std_specs::cmp::PartialEqSpecImpl for IRegister {
    open spec fn obeys_eq_spec() -> bool {
        true
    }

    open spec fn eq_spec(&self, other: &IRegister) -> bool {
        self.0 == other.0
    }
}

} // verus!
