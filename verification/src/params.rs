//! Parameter types: which type names are known, what a capture of each type
//! must look like, and how a captured text becomes a value of that type.

use crate::text::same_text;
use vstd::prelude::*;
use vstd::string::StrSliceExecFns;

verus! {

/// The type of a parameter. Every type name that is not an integer type
/// stands for free text.
#[derive(Clone, Copy, Debug, PartialEq, Eq, Structural, Hash)]
pub enum ParamType {
    U8,
    U16,
    U32,
    U64,
    Usize,
    I8,
    I16,
    I32,
    I64,
    Isize,
    Text,
}

impl ParamType {
    pub open spec fn is_integer(self) -> bool {
        self != ParamType::Text
    }

    pub open spec fn is_signed(self) -> bool {
        self == ParamType::I8 || self == ParamType::I16 || self == ParamType::I32 || self
            == ParamType::I64 || self == ParamType::Isize
    }

    /// The least value of an integer type; 0 for text.
    pub open spec fn min_value(self) -> int {
        match self {
            ParamType::I8 => i8::MIN as int,
            ParamType::I16 => i16::MIN as int,
            ParamType::I32 => i32::MIN as int,
            ParamType::I64 => i64::MIN as int,
            ParamType::Isize => isize::MIN as int,
            _ => 0,
        }
    }

    /// The greatest value of an integer type; 0 for text.
    pub open spec fn max_value(self) -> int {
        match self {
            ParamType::U8 => u8::MAX as int,
            ParamType::U16 => u16::MAX as int,
            ParamType::U32 => u32::MAX as int,
            ParamType::U64 => u64::MAX as int,
            ParamType::Usize => usize::MAX as int,
            ParamType::I8 => i8::MAX as int,
            ParamType::I16 => i16::MAX as int,
            ParamType::I32 => i32::MAX as int,
            ParamType::I64 => i64::MAX as int,
            ParamType::Isize => isize::MAX as int,
            ParamType::Text => 0,
        }
    }

    /// Whether `n` is a value of this integer type.
    pub open spec fn holds(self, n: int) -> bool {
        self.is_integer() && self.min_value() <= n <= self.max_value()
    }
}

/// The parameter type that a type name stands for.
pub open spec fn param_type_of(name: Seq<char>) -> ParamType {
    if name == "u8"@ {
        ParamType::U8
    } else if name == "u16"@ {
        ParamType::U16
    } else if name == "u32"@ {
        ParamType::U32
    } else if name == "u64"@ {
        ParamType::U64
    } else if name == "usize"@ {
        ParamType::Usize
    } else if name == "i8"@ {
        ParamType::I8
    } else if name == "i16"@ {
        ParamType::I16
    } else if name == "i32"@ {
        ParamType::I32
    } else if name == "i64"@ {
        ParamType::I64
    } else if name == "isize"@ {
        ParamType::Isize
    } else {
        ParamType::Text
    }
}

/// The sub-pattern that a capture of a type must match: one or more decimal
/// digits for an integer type, and no constraint, the empty text, for any other.
pub open spec fn constraint_of(ty: Seq<char>) -> Seq<char> {
    if param_type_of(ty).is_integer() {
        "\\d+"@
    } else {
        Seq::empty()
    }
}

/// The parameter type that a type name stands for: the integer type of that
/// name, or text for every other name.
pub fn param_type_named(name: &str) -> (ty: ParamType)
    ensures
        ty == param_type_of(name@),
{
    if same_text(name, "u8") {
        ParamType::U8
    } else if same_text(name, "u16") {
        ParamType::U16
    } else if same_text(name, "u32") {
        ParamType::U32
    } else if same_text(name, "u64") {
        ParamType::U64
    } else if same_text(name, "usize") {
        ParamType::Usize
    } else if same_text(name, "i8") {
        ParamType::I8
    } else if same_text(name, "i16") {
        ParamType::I16
    } else if same_text(name, "i32") {
        ParamType::I32
    } else if same_text(name, "i64") {
        ParamType::I64
    } else if same_text(name, "isize") {
        ParamType::Isize
    } else {
        ParamType::Text
    }
}

/// The sub-pattern that constrains a capture of the named type: `\d+` for an
/// integer type, the empty text for any other name.
pub fn constraint_for(ty: &str) -> (constraint: &'static str)
    ensures
        constraint@ == constraint_of(ty@),
{
    match param_type_named(ty) {
        ParamType::Text => {
            proof {
                reveal_strlit("");
            }
            ""
        },
        _ => "\\d+",
    }
}

/// A parameter taken from a request path, in the type that was declared for it.
#[derive(Debug)]
pub enum ParamValue {
    U8(u8),
    U16(u16),
    U32(u32),
    U64(u64),
    Usize(usize),
    I8(i8),
    I16(i16),
    I32(i32),
    I64(i64),
    Isize(isize),
    Text(String),
}

/// The mathematical form of a `ParamValue`: an integer with its type, or a text.
pub enum ParamValueView {
    Int { ty: ParamType, value: int },
    Text(Seq<char>),
}

impl View for ParamValue {
    type V = ParamValueView;

    open spec fn view(&self) -> ParamValueView {
        match self {
            ParamValue::U8(v) => ParamValueView::Int { ty: ParamType::U8, value: *v as int },
            ParamValue::U16(v) => ParamValueView::Int { ty: ParamType::U16, value: *v as int },
            ParamValue::U32(v) => ParamValueView::Int { ty: ParamType::U32, value: *v as int },
            ParamValue::U64(v) => ParamValueView::Int { ty: ParamType::U64, value: *v as int },
            ParamValue::Usize(v) => ParamValueView::Int {
                ty: ParamType::Usize,
                value: *v as int,
            },
            ParamValue::I8(v) => ParamValueView::Int { ty: ParamType::I8, value: *v as int },
            ParamValue::I16(v) => ParamValueView::Int { ty: ParamType::I16, value: *v as int },
            ParamValue::I32(v) => ParamValueView::Int { ty: ParamType::I32, value: *v as int },
            ParamValue::I64(v) => ParamValueView::Int { ty: ParamType::I64, value: *v as int },
            ParamValue::Isize(v) => ParamValueView::Int {
                ty: ParamType::Isize,
                value: *v as int,
            },
            ParamValue::Text(text) => ParamValueView::Text(text@),
        }
    }
}

pub open spec fn is_digit(c: char) -> bool {
    '0' <= c <= '9'
}

/// The value of a decimal digit; 0 for any other character.
pub open spec fn digit_value(c: char) -> nat {
    if is_digit(c) {
        (c as int - '0' as int) as nat
    } else {
        0
    }
}

pub open spec fn all_digits(s: Seq<char>) -> bool {
    forall|i: int| 0 <= i < s.len() ==> is_digit(#[trigger] s[i])
}

/// The number that a run of decimal digits writes; 0 for the empty run.
pub open spec fn digits_value(s: Seq<char>) -> nat
    decreases s.len(),
{
    if s.len() == 0 {
        0
    } else {
        digits_value(s.drop_last()) * 10 + digit_value(s.last())
    }
}

/// The integer that a text writes: one or more decimal digits, after an
/// optional `+`, or after an optional `-` where a sign is allowed. `None` for
/// every other text.
pub open spec fn integer_value(s: Seq<char>, signed: bool) -> Option<int> {
    let negative = signed && s.len() > 0 && s[0] == '-';
    let digits = if s.len() > 0 && (s[0] == '+' || negative) {
        s.skip(1)
    } else {
        s
    };
    if digits.len() > 0 && all_digits(digits) {
        if negative {
            Some(-(digits_value(digits) as int))
        } else {
            Some(digits_value(digits) as int)
        }
    } else {
        None
    }
}

/// What a captured text is as a value of a type: the text itself for text, and
/// for an integer type the integer that the text writes, if it writes one and
/// the type holds it.
pub open spec fn parsed(ty: ParamType, text: Seq<char>) -> Option<ParamValueView> {
    if ty == ParamType::Text {
        Some(ParamValueView::Text(text))
    } else {
        match integer_value(text, ty.is_signed()) {
            Some(n) => if ty.holds(n) {
                Some(ParamValueView::Int { ty, value: n })
            } else {
                None
            },
            None => None,
        }
    }
}

/// The view of a value that may be absent.
pub open spec fn value_view(value: Option<ParamValue>) -> Option<ParamValueView> {
    match value {
        Some(v) => Some(v@),
        None => None,
    }
}

/// A run of digits writes at least what any of its prefixes writes.
pub proof fn lemma_digits_value_prefix(s: Seq<char>, n: int)
    requires
        0 <= n <= s.len(),
    ensures
        digits_value(s.take(n)) <= digits_value(s),
    decreases s.len() - n,
{
    if n == s.len() {
        assert(s.take(n) =~= s);
    } else {
        lemma_digits_value_prefix(s.drop_last(), n);
        assert(s.drop_last().take(n) =~= s.take(n));
    }
}

/// Reads the sign and the magnitude of the integer that `text` writes. `None`
/// where it writes none, or one whose magnitude no `u64` holds.
fn read_integer(text: &str, signed: bool) -> (r: Option<(bool, u64)>)
    ensures
        match r {
            Some((negative, magnitude)) => integer_value(text@, signed) == Some(
                if negative {
                    -(magnitude as int)
                } else {
                    magnitude as int
                },
            ),
            None => match integer_value(text@, signed) {
                Some(n) => n < -(u64::MAX as int) || n > u64::MAX as int,
                None => true,
            },
        },
{
    let len = text.unicode_len();
    let mut negative = false;
    let mut magnitude: u64 = 0;
    let mut start: usize = 0;
    let mut i: usize = 0;
    for c in it: text.chars()
        invariant
            it.seq() == text@,
            len == text@.len(),
            i == it.index(),
            start <= i <= len,
            start <= 1,
            negative ==> signed && start == 1 && text@[0] == '-',
            start == 1 ==> text@[0] == '+' || negative,
            i > 0 && start == 0 ==> text@[0] != '+' && !(signed && text@[0] == '-'),
            all_digits(text@.subrange(start as int, i as int)),
            magnitude == digits_value(text@.subrange(start as int, i as int)),
    {
        if i == 0 && (c == '+' || (signed && c == '-')) {
            negative = c == '-';
            start = 1;
            assert(text@.subrange(1, 1) =~= Seq::<char>::empty());
        } else if '0' <= c && c <= '9' {
            let digit = (c as u32 - '0' as u32) as u64;
            proof {
                let before = text@.subrange(start as int, i as int);
                let after = text@.subrange(start as int, i + 1);
                assert(after.drop_last() =~= before);
                assert(after.last() == c);
                assert(digits_value(after) == magnitude * 10 + digit);
                let digits = text@.skip(start as int);
                assert(digits.take(i + 1 - start) =~= after);
                lemma_digits_value_prefix(digits, i + 1 - start);
                assert(text@.skip(0) =~= text@);
                assert(integer_value(text@, signed) matches Some(n) ==> n == digits_value(digits)
                    || n == -(digits_value(digits) as int));
            }
            match magnitude.checked_mul(10) {
                Some(tens) => match tens.checked_add(digit) {
                    Some(sum) => {
                        magnitude = sum;
                    },
                    None => {
                        return None;
                    },
                },
                None => {
                    return None;
                },
            }
        } else {
            proof {
                let digits = text@.skip(start as int);
                assert(digits[i - start] == c);
            }
            return None;
        }
        i = i + 1;
    }
    proof {
        assert(text@.skip(start as int) =~= text@.subrange(start as int, i as int));
        if start == 0 {
            assert(text@.skip(0) =~= text@);
        }
    }
    if i == start {
        None
    } else {
        Some((negative, magnitude))
    }
}

/// Makes the value of an integer type from its sign and magnitude, if the type
/// holds it.
fn integer_of(ty: ParamType, negative: bool, magnitude: u64) -> (r: Option<ParamValue>)
    requires
        ty.is_integer(),
    ensures
        value_view(r) == (if ty.holds(
            if negative {
                -(magnitude as int)
            } else {
                magnitude as int
            },
        ) {
            Some(
                ParamValueView::Int {
                    ty,
                    value: if negative {
                        -(magnitude as int)
                    } else {
                        magnitude as int
                    },
                },
            )
        } else {
            None
        }),
{
    let n: i128 = if negative {
        -(magnitude as i128)
    } else {
        magnitude as i128
    };
    match ty {
        ParamType::U8 => if 0 <= n && n <= u8::MAX as i128 {
            Some(ParamValue::U8(n as u8))
        } else {
            None
        },
        ParamType::U16 => if 0 <= n && n <= u16::MAX as i128 {
            Some(ParamValue::U16(n as u16))
        } else {
            None
        },
        ParamType::U32 => if 0 <= n && n <= u32::MAX as i128 {
            Some(ParamValue::U32(n as u32))
        } else {
            None
        },
        ParamType::U64 => if 0 <= n && n <= u64::MAX as i128 {
            Some(ParamValue::U64(n as u64))
        } else {
            None
        },
        ParamType::Usize => if 0 <= n && n <= usize::MAX as i128 {
            Some(ParamValue::Usize(n as usize))
        } else {
            None
        },
        ParamType::I8 => if i8::MIN as i128 <= n && n <= i8::MAX as i128 {
            Some(ParamValue::I8(n as i8))
        } else {
            None
        },
        ParamType::I16 => if i16::MIN as i128 <= n && n <= i16::MAX as i128 {
            Some(ParamValue::I16(n as i16))
        } else {
            None
        },
        ParamType::I32 => if i32::MIN as i128 <= n && n <= i32::MAX as i128 {
            Some(ParamValue::I32(n as i32))
        } else {
            None
        },
        ParamType::I64 => if i64::MIN as i128 <= n && n <= i64::MAX as i128 {
            Some(ParamValue::I64(n as i64))
        } else {
            None
        },
        ParamType::Isize => if isize::MIN as i128 <= n && n <= isize::MAX as i128 {
            Some(ParamValue::Isize(n as isize))
        } else {
            None
        },
        ParamType::Text => None,
    }
}

impl ParamType {
    /// Whether the type is an integer type that takes a sign.
    pub fn signed(self) -> (signed: bool)
        ensures
            signed == self.is_signed(),
    {
        match self {
            ParamType::I8 | ParamType::I16 | ParamType::I32 | ParamType::I64 | ParamType::Isize => true,
            _ => false,
        }
    }
}

/// Reads a captured text as a value of the declared type. Text is kept as it
/// is. For an integer type the text must be one or more decimal digits, after
/// an optional `+`, or `-` for a signed type, and the number must fit the type;
/// otherwise there is no value.
pub fn parse_param(ty: ParamType, text: &str) -> (value: Option<ParamValue>)
    ensures
        value_view(value) == parsed(ty, text@),
{
    match ty {
        ParamType::Text => Some(ParamValue::Text(text.to_owned())),
        _ => match read_integer(text, ty.signed()) {
            Some((negative, magnitude)) => integer_of(ty, negative, magnitude),
            None => None,
        },
    }
}

} // verus!
