//! Attributes: the files under `/sys/class/` through which a device is read and driven,
//! and the text that they hold.
use vstd::prelude::*;
use crate::error::{self, int_error, Ev3Result};
use crate::number::{self, format_i32, format_u8, parse_i32, parse_u8};
use crate::text::{self, split_whitespace, to_chars, trim_end};

verus! {

/// The root driver path `/sys/class/`.
pub open spec fn root_path() -> Seq<char> {
    "/sys/class/"@
}

/// The file of attribute `attribute_name` of device `name` in class `class_name`:
/// `/sys/class/{class_name}/{name}{attribute_name}`.
pub open spec fn attribute_path(class_name: Seq<char>, name: Seq<char>, attribute_name: Seq<char>) -> Seq<char> {
    root_path() + class_name + "/"@ + name + attribute_name
}

/// Appends the characters of `t` to `s`.
pub fn push_str(s: &mut String, t: &str)
    ensures
        final(s)@ == old(s)@ + t@,
{
    let v = to_chars(t);
    let mut i: usize = 0;
    while i < v.len()
        invariant
            i <= v@.len(),
            v@ == t@,
            s@ == old(s)@ + v@.take(i as int),
        decreases v.len() - i,
    {
        crate::text::push_char(s, v[i]);
        i += 1;
        assert(v@.take(i as int) == v@.take(i - 1).push(v@[i - 1]));
    }
    assert(v@.take(v.len() as int) == v@);
}

/// An attribute file of a device: `/sys/class/{class_name}/{name}{attribute_name}`.
#[derive(Debug, Clone)]
pub struct Attribute {
    /// The device class, such as `tacho-motor`.
    pub class_name: String,
    /// The device's directory in its class, such as `motor0`.
    pub name: String,
    /// The attribute, such as `duty_cycle_sp`.
    pub attribute_name: String,
}

/// `a` and `b` name the same attribute file.
pub open spec fn same_attribute(a: Attribute, b: Attribute) -> bool {
    &&& a.class_name@ == b.class_name@
    &&& a.name@ == b.name@
    &&& a.attribute_name@ == b.attribute_name@
}

/// The value of an attribute file whose text is `raw`, read as a string.
pub open spec fn decode_str_spec(raw: Seq<char>) -> Seq<char> {
    text::trim_end_spec(raw)
}

/// The value of an attribute file whose text is `raw`, read as an `i32`.
pub open spec fn decode_i32_spec(raw: Seq<char>) -> Result<i32, error::ErrorView> {
    match number::parse_i32_spec(text::trim_end_spec(raw)) {
        Ok(v) => Ok(v as i32),
        Err(k) => Err(error::ErrorView::InternalError(error::int_error_text(k))),
    }
}

/// The value of an attribute file whose text is `raw`, read as a `u8`.
pub open spec fn decode_u8_spec(raw: Seq<char>) -> Result<u8, error::ErrorView> {
    match number::parse_u8_spec(text::trim_end_spec(raw)) {
        Ok(v) => Ok(v as u8),
        Err(k) => Err(error::ErrorView::InternalError(error::int_error_text(k))),
    }
}

/// The value of an attribute file whose text is `raw`, read as a list of words.
pub open spec fn decode_vec_spec(raw: Seq<char>) -> Seq<Seq<char>> {
    text::words(text::trim_end_spec(raw))
}

impl Attribute {
    /// The attribute `attribute_name` of device `name` in class `class_name`.
    pub fn new(class_name: &str, name: &str, attribute_name: &str) -> (a: Attribute)
        ensures
            a.class_name@ == class_name@,
            a.name@ == name@,
            a.attribute_name@ == attribute_name@,
    {
        Attribute {
            class_name: class_name.to_owned(),
            name: name.to_owned(),
            attribute_name: attribute_name.to_owned(),
        }
    }

    /// A copy of this attribute.
    pub fn duplicate(&self) -> (r: Attribute)
        ensures
            r.class_name@ == self.class_name@,
            r.name@ == self.name@,
            r.attribute_name@ == self.attribute_name@,
    {
        Attribute {
            class_name: self.class_name.clone(),
            name: self.name.clone(),
            attribute_name: self.attribute_name.clone(),
        }
    }

    /// The path of the attribute's file: `/sys/class/{class_name}/{name}{attribute_name}`.
    pub fn path(&self) -> (p: String)
        ensures
            p@ == attribute_path(self.class_name@, self.name@, self.attribute_name@),
    {
        let mut p = "/sys/class/".to_owned();
        push_str(&mut p, self.class_name.as_str());
        push_str(&mut p, "/");
        push_str(&mut p, self.name.as_str());
        push_str(&mut p, self.attribute_name.as_str());
        p
    }

    /// Whether a file with permission bits `mode` is opened for reading and for writing:
    /// for reading where the owner may read it, for writing where the owner may write it.
    pub fn access(mode: u32) -> (r: (bool, bool))
        ensures
            r.0 == (mode & 256 == 256),
            r.1 == (mode & 128 == 128),
    {
        (mode & 256 == 256, mode & 128 == 128)
    }

    /// The current value, from the file's text `raw`: the text without trailing white space.
    pub fn get_str(raw: &str) -> (r: String)
        ensures
            r@ == decode_str_spec(raw@),
    {
        trim_end(raw)
    }

    /// The current value, from the file's text `raw`, parsed to an `i32`.
    /// Returns an `InternalError` if the value is not an `i32`.
    pub fn get_i32(raw: &str) -> (r: Ev3Result<i32>)
        ensures
            error::outcome(r) == decode_i32_spec(raw@),
    {
        let t = to_chars(trim_end(raw).as_str());
        match parse_i32(&t) {
            Ok(v) => Ok(v),
            Err(k) => Err(int_error(k)),
        }
    }

    /// The current value, from the file's text `raw`, parsed to a `u8`.
    /// Returns an `InternalError` if the value is not a `u8`.
    pub fn get_u8(raw: &str) -> (r: Ev3Result<u8>)
        ensures
            error::outcome(r) == decode_u8_spec(raw@),
    {
        let t = to_chars(trim_end(raw).as_str());
        match parse_u8(&t) {
            Ok(v) => Ok(v),
            Err(k) => Err(int_error(k)),
        }
    }

    /// The current value, from the file's text `raw`, split at white space.
    pub fn get_vec(raw: &str) -> (r: Vec<String>)
        ensures
            r.deep_view() == decode_vec_spec(raw@),
    {
        split_whitespace(trim_end(raw).as_str())
    }

    /// The text written to set the attribute to `value`.
    pub fn set_i32(value: i32) -> (r: String)
        ensures
            r@ == number::int_text(value as int),
    {
        format_i32(value)
    }

    /// The text written to set the attribute to `value`.
    pub fn set_u8(value: u8) -> (r: String)
        ensures
            r@ == number::int_text(value as int),
    {
        format_u8(value)
    }
}

proof fn lemma_int_text_trimmed(n: int)
    ensures
        text::trim_end_spec(number::int_text(n)) == number::int_text(n),
{
    let m = if n < 0 { (-n) as nat } else { n as nat };
    number::lemma_decimal(m);
    let d = number::decimal(m);
    let s = number::int_text(n);
    assert(s.last() == d.last());
    assert(number::is_digit(d[d.len() - 1]));
}

/// An `i32` written to an attribute reads back as the same `i32`.
pub proof fn lemma_i32_write_read(value: i32)
    ensures
        decode_i32_spec(number::int_text(value as int)) == Ok::<i32, error::ErrorView>(value),
{
    lemma_int_text_trimmed(value as int);
    number::lemma_parse_int_text(value as int, i32::MIN as int, i32::MAX as int, true);
}

/// A `u8` written to an attribute reads back as the same `u8`.
pub proof fn lemma_u8_write_read(value: u8)
    ensures
        decode_u8_spec(number::int_text(value as int)) == Ok::<u8, error::ErrorView>(value),
{
    lemma_int_text_trimmed(value as int);
    number::lemma_parse_int_text(value as int, 0, u8::MAX as int, false);
}

} // verus!
