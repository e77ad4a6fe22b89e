//! The store's native identifier: twelve bytes, shown at the API boundary
//! as twenty-four hexadecimal characters.
//!
//! An identifier string parses exactly when it is twenty-four hexadecimal
//! digits (either letter case); formatting always emits lower case, and
//! formatting then parsing returns the original bytes.

use vstd::prelude::*;

verus! {

use crate::outcome::ApiError;
use vstd::string::StrSliceExecFns;
use vstd::string::StringExecFns;

/// Value of one hexadecimal digit character; 16 marks a character that is
/// no hexadecimal digit.
pub open spec fn hex_digit_value(c: char) -> int {
    if c == '0' {
        0
    } else if c == '1' {
        1
    } else if c == '2' {
        2
    } else if c == '3' {
        3
    } else if c == '4' {
        4
    } else if c == '5' {
        5
    } else if c == '6' {
        6
    } else if c == '7' {
        7
    } else if c == '8' {
        8
    } else if c == '9' {
        9
    } else if c == 'a' || c == 'A' {
        10
    } else if c == 'b' || c == 'B' {
        11
    } else if c == 'c' || c == 'C' {
        12
    } else if c == 'd' || c == 'D' {
        13
    } else if c == 'e' || c == 'E' {
        14
    } else if c == 'f' || c == 'F' {
        15
    } else {
        16
    }
}

pub open spec fn is_hex_digit(c: char) -> bool {
    hex_digit_value(c) < 16
}

/// A string is a well-formed identifier exactly when it is twenty-four
/// hexadecimal digits.
pub open spec fn valid_hex_id(s: Seq<char>) -> bool {
    s.len() == 24 && (forall|i: int| 0 <= i < 24 ==> is_hex_digit(#[trigger] s[i]))
}

/// The twelve bytes denoted by a well-formed identifier string.
pub open spec fn id_of_hex(s: Seq<char>) -> Seq<u8> {
    Seq::new(12, |i: int| (hex_digit_value(s[2 * i]) * 16 + hex_digit_value(s[2 * i + 1])) as u8)
}

/// Lower-case hexadecimal digit character of a value below sixteen.
pub open spec fn hex_char_of(v: int) -> char {
    if v == 0 {
        '0'
    } else if v == 1 {
        '1'
    } else if v == 2 {
        '2'
    } else if v == 3 {
        '3'
    } else if v == 4 {
        '4'
    } else if v == 5 {
        '5'
    } else if v == 6 {
        '6'
    } else if v == 7 {
        '7'
    } else if v == 8 {
        '8'
    } else if v == 9 {
        '9'
    } else if v == 10 {
        'a'
    } else if v == 11 {
        'b'
    } else if v == 12 {
        'c'
    } else if v == 13 {
        'd'
    } else if v == 14 {
        'e'
    } else {
        'f'
    }
}

/// The twenty-four character lower-case encoding of twelve identifier bytes.
pub open spec fn hex_of_id(b: Seq<u8>) -> Seq<char> {
    Seq::new(
        24,
        |i: int|
            if i % 2 == 0 {
                hex_char_of(b[i / 2] as int / 16)
            } else {
                hex_char_of(b[i / 2] as int % 16)
            },
    )
}

/// A native store identifier: exactly twelve bytes.
pub struct UserId {
    bytes: Vec<u8>,
}

impl View for UserId {
    type V = Seq<u8>;

    closed spec fn view(&self) -> Seq<u8> {
        self.bytes@
    }
}

impl UserId {
    /// A well-formed identifier holds exactly twelve bytes.
    pub open spec fn wf(&self) -> bool {
        self@.len() == 12
    }

    /// Wraps twelve raw identifier bytes; any other length is refused.
    pub fn from_bytes(bytes: Vec<u8>) -> (r: Option<UserId>)
        ensures
            bytes@.len() == 12 ==> (r matches Some(id) && id@ == bytes@ && id.wf()),
            bytes@.len() != 12 ==> r is None,
    {
        if bytes.len() == 12 {
            Some(UserId { bytes })
        } else {
            None
        }
    }

    /// The identifier's raw bytes, one at a time.
    pub fn byte_at(&self, i: usize) -> (b: u8)
        requires
            i < self@.len(),
        ensures
            b == self@[i as int],
    {
        self.bytes[i]
    }

    /// Whether two identifiers carry the same bytes.
    pub fn matches(&self, other: &UserId) -> (r: bool)
        ensures
            r == (self@ == other@),
    {
        if self.bytes.len() != other.bytes.len() {
            return false;
        }
        let mut i: usize = 0;
        while i < self.bytes.len()
            invariant
                i <= self.bytes@.len(),
                self.bytes@.len() == other.bytes@.len(),
                forall|j: int| 0 <= j < i ==> self.bytes@[j] == other.bytes@[j],
            decreases self.bytes@.len() - i,
        {
            if self.bytes[i] != other.bytes[i] {
                return false;
            }
            i += 1;
        }
        proof {
            assert(self@ =~= other@);
        }
        true
    }

    /// A fresh identifier with the same bytes.
    pub fn duplicate(&self) -> (r: UserId)
        ensures
            r@ == self@,
    {
        let mut bytes: Vec<u8> = Vec::new();
        let mut i: usize = 0;
        while i < self.bytes.len()
            invariant
                i <= self.bytes@.len(),
                bytes@.len() == i,
                forall|j: int| 0 <= j < i ==> bytes@[j] == self.bytes@[j],
            decreases self.bytes@.len() - i,
        {
            bytes.push(self.bytes[i]);
            i += 1;
        }
        proof {
            assert(bytes@ =~= self.bytes@);
        }
        UserId { bytes }
    }

    /// Parses a twenty-four digit hexadecimal identifier string; anything
    /// else is a client error, decided without any store interaction.
    pub fn parse_str(s: &str) -> (r: Result<UserId, ApiError>)
        ensures
            valid_hex_id(s@) ==> (r matches Ok(id) && id@ == id_of_hex(s@) && id.wf()),
            !valid_hex_id(s@) ==> r == Err::<UserId, ApiError>(ApiError::ClientError),
    {
        if s.unicode_len() != 24 {
            return Err(ApiError::ClientError);
        }
        let mut bytes: Vec<u8> = Vec::new();
        let mut i: usize = 0;
        while i < 12
            invariant
                i <= 12,
                s@.len() == 24,
                bytes@.len() == i,
                forall|j: int| 0 <= j < 2 * i ==> is_hex_digit(#[trigger] s@[j]),
                forall|j: int| 0 <= j < i ==> bytes@[j] == id_of_hex(s@)[j],
            decreases 12 - i,
        {
            let hi = hex_digit(s.get_char(2 * i));
            let lo = hex_digit(s.get_char(2 * i + 1));
            match (hi, lo) {
                (Some(h), Some(l)) => {
                    bytes.push(h * 16 + l);
                },
                _ => {
                    return Err(ApiError::ClientError);
                },
            }
            i += 1;
        }
        proof {
            assert(bytes@ =~= id_of_hex(s@));
        }
        Ok(UserId { bytes })
    }

    /// The lower-case hexadecimal string form of the identifier, the form
    /// that `parse_str` reads back to the same bytes.
    pub fn to_hex(&self) -> (s: String)
        requires
            self.wf(),
        ensures
            s@ == hex_of_id(self@),
            valid_hex_id(s@),
            id_of_hex(s@) == self@,
    {
        let mut s = String::new();
        let mut i: usize = 0;
        while i < 12
            invariant
                i <= 12,
                self.wf(),
                s@.len() == 2 * i,
                forall|j: int| 0 <= j < 2 * i ==> s@[j] == hex_of_id(self@)[j],
            decreases 12 - i,
        {
            let b = self.bytes[i];
            s.append(hex_char_str(b / 16));
            s.append(hex_char_str(b % 16));
            i += 1;
        }
        proof {
            assert(s@ =~= hex_of_id(self@));
            lemma_hex_round_trip(self@);
        }
        s
    }
}

/// Maps a hexadecimal digit character to its value; any other character
/// to nothing.
fn hex_digit(c: char) -> (r: Option<u8>)
    ensures
        is_hex_digit(c) ==> (r matches Some(v) && v as int == hex_digit_value(c)),
        !is_hex_digit(c) ==> r is None,
{
    match c {
        '0' => Some(0),
        '1' => Some(1),
        '2' => Some(2),
        '3' => Some(3),
        '4' => Some(4),
        '5' => Some(5),
        '6' => Some(6),
        '7' => Some(7),
        '8' => Some(8),
        '9' => Some(9),
        'a' | 'A' => Some(10),
        'b' | 'B' => Some(11),
        'c' | 'C' => Some(12),
        'd' | 'D' => Some(13),
        'e' | 'E' => Some(14),
        'f' | 'F' => Some(15),
        _ => None,
    }
}

/// The one-character string of a lower-case hexadecimal digit.
fn hex_char_str(v: u8) -> (r: &'static str)
    requires
        v < 16,
    ensures
        r@.len() == 1,
        r@[0] == hex_char_of(v as int),
{
    match v {
        0 => {
            proof {
                reveal_strlit("0");
            }
            "0"
        },
        1 => {
            proof {
                reveal_strlit("1");
            }
            "1"
        },
        2 => {
            proof {
                reveal_strlit("2");
            }
            "2"
        },
        3 => {
            proof {
                reveal_strlit("3");
            }
            "3"
        },
        4 => {
            proof {
                reveal_strlit("4");
            }
            "4"
        },
        5 => {
            proof {
                reveal_strlit("5");
            }
            "5"
        },
        6 => {
            proof {
                reveal_strlit("6");
            }
            "6"
        },
        7 => {
            proof {
                reveal_strlit("7");
            }
            "7"
        },
        8 => {
            proof {
                reveal_strlit("8");
            }
            "8"
        },
        9 => {
            proof {
                reveal_strlit("9");
            }
            "9"
        },
        10 => {
            proof {
                reveal_strlit("a");
            }
            "a"
        },
        11 => {
            proof {
                reveal_strlit("b");
            }
            "b"
        },
        12 => {
            proof {
                reveal_strlit("c");
            }
            "c"
        },
        13 => {
            proof {
                reveal_strlit("d");
            }
            "d"
        },
        14 => {
            proof {
                reveal_strlit("e");
            }
            "e"
        },
        _ => {
            proof {
                reveal_strlit("f");
            }
            "f"
        },
    }
}

/// Formatting twelve identifier bytes and parsing the result returns the
/// same bytes: the identifier round-trips losslessly through its string
/// form.
pub proof fn lemma_hex_round_trip(b: Seq<u8>)
    requires
        b.len() == 12,
    ensures
        valid_hex_id(hex_of_id(b)),
        id_of_hex(hex_of_id(b)) == b,
{
    assert forall|v: int| 0 <= v < 16 implies is_hex_digit(hex_char_of(v)) && hex_digit_value(
        hex_char_of(v),
    ) == v by {
        assert(hex_digit_value(hex_char_of(v)) == v);
    }
    assert forall|i: int| 0 <= i < 24 implies is_hex_digit(#[trigger] hex_of_id(b)[i]) by {
        assert(0 <= b[i / 2] / 16 < 16);
        assert(0 <= b[i / 2] as int % 16 < 16);
    }
    assert forall|i: int| 0 <= i < 12 implies id_of_hex(hex_of_id(b))[i] == b[i] by {
        let hi = hex_of_id(b)[2 * i];
        let lo = hex_of_id(b)[2 * i + 1];
        assert(hi == hex_char_of(b[i] as int / 16));
        assert(lo == hex_char_of(b[i] as int % 16));
        assert(hex_digit_value(hi) == b[i] / 16);
        assert(hex_digit_value(lo) == b[i] as int % 16);
    }
    assert(id_of_hex(hex_of_id(b)) =~= b);
}

} // verus!
