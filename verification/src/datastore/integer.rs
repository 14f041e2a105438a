//! The integer scalar of the datastore, which travels as decimal text.

use vstd::prelude::*;

use crate::datastore::decimal::{
    decimal_text, decimal_value, is_decimal, magnitude_limit, read_decimal, write_decimal,
};
use crate::serde_ds::error::{Error, ErrorModel};

verus! {

/// An integer of the datastore. All integral types are held as their
/// decimal text, so that no width of the sender is lost on the wire.
#[derive(Debug)]
pub struct Int(String);

impl View for Int {
    type V = Seq<char>;

    closed spec fn view(&self) -> Seq<char> {
        self.0@
    }
}

/// An integer type of fixed width that an [`Int`] can be read into.
pub trait FixedWidth: Sized {
    /// The least value of the type.
    spec fn lowest() -> int;

    /// The greatest value of the type.
    spec fn highest() -> int;

    /// The integer that a value of the type stands for.
    spec fn value(self) -> int;

    /// The type's range is not empty and lies within the magnitudes that
    /// reading decimal text tells apart.
    proof fn lemma_range()
        ensures
            -magnitude_limit() <= Self::lowest() <= Self::highest() <= magnitude_limit(),
    ;

    /// Two values of the type that stand for the same integer are the same.
    proof fn lemma_value_injective(a: Self, b: Self)
        requires
            a.value() == b.value(),
        ensures
            a == b,
    ;

    /// The value of the type that stands for `wide`, if `wide` is in range.
    fn narrow(wide: i128) -> (r: Option<Self>)
        ensures
            match r {
                Some(x) => x.value() == wide && Self::lowest() <= wide <= Self::highest(),
                None => wide < Self::lowest() || wide > Self::highest(),
            },
    ;
}

impl FixedWidth for u8 {
    open spec fn lowest() -> int {
        u8::MIN as int
    }

    open spec fn highest() -> int {
        u8::MAX as int
    }

    open spec fn value(self) -> int {
        self as int
    }

    proof fn lemma_range() {
    }

    proof fn lemma_value_injective(a: u8, b: u8) {
    }

    fn narrow(wide: i128) -> (r: Option<u8>) {
        if 0 <= wide && wide <= u8::MAX as i128 {
            Some(wide as u8)
        } else {
            None
        }
    }
}

impl FixedWidth for u16 {
    open spec fn lowest() -> int {
        u16::MIN as int
    }

    open spec fn highest() -> int {
        u16::MAX as int
    }

    open spec fn value(self) -> int {
        self as int
    }

    proof fn lemma_range() {
    }

    proof fn lemma_value_injective(a: u16, b: u16) {
    }

    fn narrow(wide: i128) -> (r: Option<u16>) {
        if 0 <= wide && wide <= u16::MAX as i128 {
            Some(wide as u16)
        } else {
            None
        }
    }
}

impl FixedWidth for u32 {
    open spec fn lowest() -> int {
        u32::MIN as int
    }

    open spec fn highest() -> int {
        u32::MAX as int
    }

    open spec fn value(self) -> int {
        self as int
    }

    proof fn lemma_range() {
    }

    proof fn lemma_value_injective(a: u32, b: u32) {
    }

    fn narrow(wide: i128) -> (r: Option<u32>) {
        if 0 <= wide && wide <= u32::MAX as i128 {
            Some(wide as u32)
        } else {
            None
        }
    }
}

impl FixedWidth for u64 {
    open spec fn lowest() -> int {
        u64::MIN as int
    }

    open spec fn highest() -> int {
        u64::MAX as int
    }

    open spec fn value(self) -> int {
        self as int
    }

    proof fn lemma_range() {
    }

    proof fn lemma_value_injective(a: u64, b: u64) {
    }

    fn narrow(wide: i128) -> (r: Option<u64>) {
        if 0 <= wide && wide <= u64::MAX as i128 {
            Some(wide as u64)
        } else {
            None
        }
    }
}

impl FixedWidth for i8 {
    open spec fn lowest() -> int {
        i8::MIN as int
    }

    open spec fn highest() -> int {
        i8::MAX as int
    }

    open spec fn value(self) -> int {
        self as int
    }

    proof fn lemma_range() {
    }

    proof fn lemma_value_injective(a: i8, b: i8) {
    }

    fn narrow(wide: i128) -> (r: Option<i8>) {
        if i8::MIN as i128 <= wide && wide <= i8::MAX as i128 {
            Some(wide as i8)
        } else {
            None
        }
    }
}

impl FixedWidth for i16 {
    open spec fn lowest() -> int {
        i16::MIN as int
    }

    open spec fn highest() -> int {
        i16::MAX as int
    }

    open spec fn value(self) -> int {
        self as int
    }

    proof fn lemma_range() {
    }

    proof fn lemma_value_injective(a: i16, b: i16) {
    }

    fn narrow(wide: i128) -> (r: Option<i16>) {
        if i16::MIN as i128 <= wide && wide <= i16::MAX as i128 {
            Some(wide as i16)
        } else {
            None
        }
    }
}

impl FixedWidth for i32 {
    open spec fn lowest() -> int {
        i32::MIN as int
    }

    open spec fn highest() -> int {
        i32::MAX as int
    }

    open spec fn value(self) -> int {
        self as int
    }

    proof fn lemma_range() {
    }

    proof fn lemma_value_injective(a: i32, b: i32) {
    }

    fn narrow(wide: i128) -> (r: Option<i32>) {
        if i32::MIN as i128 <= wide && wide <= i32::MAX as i128 {
            Some(wide as i32)
        } else {
            None
        }
    }
}

impl FixedWidth for i64 {
    open spec fn lowest() -> int {
        i64::MIN as int
    }

    open spec fn highest() -> int {
        i64::MAX as int
    }

    open spec fn value(self) -> int {
        self as int
    }

    proof fn lemma_range() {
    }

    proof fn lemma_value_injective(a: i64, b: i64) {
    }

    fn narrow(wide: i128) -> (r: Option<i64>) {
        if i64::MIN as i128 <= wide && wide <= i64::MAX as i128 {
            Some(wide as i64)
        } else {
            None
        }
    }
}

impl Int {
    /// Wraps `text` as it is. Whether it is a decimal literal is found out
    /// when the integer is read.
    pub fn new(text: String) -> (made: Int)
        ensures
            made@ == text@,
    {
        Int(text)
    }

    /// The text of the integer.
    pub fn as_str(&self) -> (text: &str)
        ensures
            text@ == self@,
    {
        self.0.as_str()
    }

    /// Reads the integer into a fixed width. Text that is no decimal literal
    /// is refused as malformed, a literal whose value the width cannot hold
    /// as a size mismatch; any other literal gives its value.
    pub fn parse<T: FixedWidth>(&self) -> (r: Result<T, Error>)
        ensures
            match r {
                Ok(x) => {
                    &&& is_decimal(self@)
                    &&& T::lowest() <= decimal_value(self@) <= T::highest()
                    &&& x.value() == decimal_value(self@)
                },
                Err(e) => if is_decimal(self@) {
                    &&& e@ == ErrorModel::IntegerSizeMismatch
                    &&& !(T::lowest() <= decimal_value(self@) <= T::highest())
                } else {
                    e@ == ErrorModel::ParseIntError
                },
            },
    {
        proof {
            T::lemma_range();
        }
        match read_decimal(self.0.as_str()) {
            Ok(wide) => match T::narrow(wide) {
                Some(x) => Ok(x),
                None => Err(Error::IntegerSizeMismatch()),
            },
            Err(e) => Err(e),
        }
    }
}

impl Clone for Int {
    fn clone(&self) -> (copy: Int)
        ensures
            copy@ == self@,
    {
        Int(self.0.clone())
    }
}

impl PartialEq for Int {
    fn eq(&self, other: &Int) -> (equal: bool) {
        self.0 == other.0
    }
}

impl vstd::std_specs::cmp::PartialEqSpecImpl for Int {
    open spec fn obeys_eq_spec() -> bool {
        true
    }

    open spec fn eq_spec(&self, other: &Int) -> bool {
        self@ == other@
    }
}

impl From<u8> for Int {
    /// The integer whose text is the decimal text of `v`.
    fn from(v: u8) -> (made: Int)
        ensures
            made@ == decimal_text(v as int),
    {
        Int(write_decimal(false, v as u64))
    }
}

impl vstd::std_specs::convert::FromSpecImpl<u8> for Int {
    open spec fn obeys_from_spec() -> bool {
        false
    }

    open spec fn from_spec(v: u8) -> Int {
        arbitrary()
    }
}

impl From<u16> for Int {
    /// The integer whose text is the decimal text of `v`.
    fn from(v: u16) -> (made: Int)
        ensures
            made@ == decimal_text(v as int),
    {
        Int(write_decimal(false, v as u64))
    }
}

impl vstd::std_specs::convert::FromSpecImpl<u16> for Int {
    open spec fn obeys_from_spec() -> bool {
        false
    }

    open spec fn from_spec(v: u16) -> Int {
        arbitrary()
    }
}

impl From<u32> for Int {
    /// The integer whose text is the decimal text of `v`.
    fn from(v: u32) -> (made: Int)
        ensures
            made@ == decimal_text(v as int),
    {
        Int(write_decimal(false, v as u64))
    }
}

impl vstd::std_specs::convert::FromSpecImpl<u32> for Int {
    open spec fn obeys_from_spec() -> bool {
        false
    }

    open spec fn from_spec(v: u32) -> Int {
        arbitrary()
    }
}

impl From<u64> for Int {
    /// The integer whose text is the decimal text of `v`.
    fn from(v: u64) -> (made: Int)
        ensures
            made@ == decimal_text(v as int),
    {
        Int(write_decimal(false, v as u64))
    }
}

impl vstd::std_specs::convert::FromSpecImpl<u64> for Int {
    open spec fn obeys_from_spec() -> bool {
        false
    }

    open spec fn from_spec(v: u64) -> Int {
        arbitrary()
    }
}

impl From<i8> for Int {
    /// The integer whose text is the decimal text of `v`.
    fn from(v: i8) -> (made: Int)
        ensures
            made@ == decimal_text(v as int),
    {
        if v < 0 {
            Int(write_decimal(true, (-(v as i128)) as u64))
        } else {
            Int(write_decimal(false, v as u64))
        }
    }
}

impl vstd::std_specs::convert::FromSpecImpl<i8> for Int {
    open spec fn obeys_from_spec() -> bool {
        false
    }

    open spec fn from_spec(v: i8) -> Int {
        arbitrary()
    }
}

impl From<i16> for Int {
    /// The integer whose text is the decimal text of `v`.
    fn from(v: i16) -> (made: Int)
        ensures
            made@ == decimal_text(v as int),
    {
        if v < 0 {
            Int(write_decimal(true, (-(v as i128)) as u64))
        } else {
            Int(write_decimal(false, v as u64))
        }
    }
}

impl vstd::std_specs::convert::FromSpecImpl<i16> for Int {
    open spec fn obeys_from_spec() -> bool {
        false
    }

    open spec fn from_spec(v: i16) -> Int {
        arbitrary()
    }
}

impl From<i32> for Int {
    /// The integer whose text is the decimal text of `v`.
    fn from(v: i32) -> (made: Int)
        ensures
            made@ == decimal_text(v as int),
    {
        if v < 0 {
            Int(write_decimal(true, (-(v as i128)) as u64))
        } else {
            Int(write_decimal(false, v as u64))
        }
    }
}

impl vstd::std_specs::convert::FromSpecImpl<i32> for Int {
    open spec fn obeys_from_spec() -> bool {
        false
    }

    open spec fn from_spec(v: i32) -> Int {
        arbitrary()
    }
}

impl From<i64> for Int {
    /// The integer whose text is the decimal text of `v`.
    fn from(v: i64) -> (made: Int)
        ensures
            made@ == decimal_text(v as int),
    {
        if v < 0 {
            Int(write_decimal(true, (-(v as i128)) as u64))
        } else {
            Int(write_decimal(false, v as u64))
        }
    }
}

impl vstd::std_specs::convert::FromSpecImpl<i64> for Int {
    open spec fn obeys_from_spec() -> bool {
        false
    }

    open spec fn from_spec(v: i64) -> Int {
        arbitrary()
    }
}

} // verus!
