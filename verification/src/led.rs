//! The leds on top of the EV3 brick.
use vstd::prelude::*;
use crate::attribute::{self, same_attribute, Attribute};
use crate::device::{writes_to, AttributeWrite};
use crate::driver;
use crate::error::{self, Ev3Error, Ev3Result};
use crate::number;
use crate::text;

verus! {

/// Color type: the brightness of the red and of the green led.
pub type Color = (u8, u8);

/// Led off.
pub const COLOR_OFF: Color = (0, 0);

/// Led color red
pub const COLOR_RED: Color = (255, 0);

/// Led color green
pub const COLOR_GREEN: Color = (0, 255);

/// Led color amber
pub const COLOR_AMBER: Color = (255, 255);

/// Led color orange
pub const COLOR_ORANGE: Color = (255, 128);

/// LED color yellow
pub const COLOR_YELLOW: Color = (25, 255);

/// The led directories chosen so far: left red, left green, right red, right green.
pub type LedNames = (Seq<char>, Seq<char>, Seq<char>, Seq<char>);

/// The led directory `name` is one of the brick's status leds.
pub open spec fn is_status_led(name: Seq<char>) -> bool {
    text::contains_seq(name, ":brick-status"@) || text::contains_seq(name, ":ev3dev"@)
}

/// The choice of led directories after seeing directory `name`.
pub open spec fn led_step(st: LedNames, name: Seq<char>) -> LedNames {
    if is_status_led(name) {
        if text::contains_seq(name, "led0:"@) || text::contains_seq(name, "left:"@) {
            if text::contains_seq(name, "red:"@) {
                (name, st.1, st.2, st.3)
            } else if text::contains_seq(name, "green:"@) {
                (st.0, name, st.2, st.3)
            } else {
                st
            }
        } else if text::contains_seq(name, "led1:"@) || text::contains_seq(name, "right:"@) {
            if text::contains_seq(name, "red:"@) {
                (st.0, st.1, name, st.3)
            } else if text::contains_seq(name, "green:"@) {
                (st.0, st.1, st.2, name)
            } else {
                st
            }
        } else {
            st
        }
    } else {
        st
    }
}

/// The led directories chosen from the entries `names` of `/sys/class/leds`, in order,
/// or the error of the first entry whose name could not be read.
/// A later matching directory replaces an earlier one; a led that no directory matches
/// keeps the empty name.
pub open spec fn led_names(names: Seq<Ev3Result<Option<String>>>) -> Result<LedNames, error::ErrorView>
    decreases names.len(),
{
    if names.len() == 0 {
        Ok((seq![], seq![], seq![], seq![]))
    } else {
        match led_names(names.drop_last()) {
            Err(x) => Err(x),
            Ok(st) => match driver::name_outcome(names.last()) {
                Err(x) => Err(x),
                Ok(n) => Ok(led_step(st, n)),
            },
        }
    }
}

/// `a` is the `brightness` attribute of led directory `name`.
pub open spec fn is_brightness(a: Attribute, name: Seq<char>) -> bool {
    a.class_name@ == "leds"@ && a.name@ == name && a.attribute_name@ == "brightness"@
}

/// The leds on top of the EV3 brick: the `brightness` attributes of its four leds.
#[derive(Debug, Clone)]
pub struct Led {
    left_red: Attribute,
    left_green: Attribute,
    right_red: Attribute,
    right_green: Attribute,
}

/// The color that the reads of the red and the green brightness give,
/// or the error of the first read that failed.
pub open spec fn color_outcome(red: Ev3Result<u8>, green: Ev3Result<u8>) -> Result<Color, error::ErrorView> {
    match (red, green) {
        (Err(e), _) => Err(e@),
        (Ok(_), Err(e)) => Err(e@),
        (Ok(r), Ok(g)) => Ok((r, g)),
    }
}

/// The common color of both sides, `None` where they differ, or the error of the first read that
/// failed.
pub open spec fn common_color(left: Result<Color, error::ErrorView>, right: Result<Color, error::ErrorView>) -> Result<Option<Color>, error::ErrorView> {
    match (left, right) {
        (Err(e), _) => Err(e),
        (Ok(_), Err(e)) => Err(e),
        (Ok(l), Ok(r)) => Ok(
            if l == r {
                Some(l)
            } else {
                None
            },
        ),
    }
}

fn color_of(red: Ev3Result<u8>, green: Ev3Result<u8>) -> (r: Ev3Result<Color>)
    ensures
        (red is Ok && green is Ok) ==> r == Ok::<Color, Ev3Error>((red->Ok_0, green->Ok_0)),
        match r {
            Ok(c) => color_outcome(red, green) == Ok::<Color, error::ErrorView>(c),
            Err(e) => color_outcome(red, green) == Err::<Color, error::ErrorView>(e@),
        },
{
    let red = red?;
    let green = green?;
    Ok((red, green))
}

impl Led {
    /// The `brightness` attributes of the leds, left red, left green, right red, right green.
    pub closed spec fn attributes(self) -> (Attribute, Attribute, Attribute, Attribute) {
        (self.left_red, self.left_green, self.right_red, self.right_green)
    }

    /// The leds whose directories are chosen among the entries `names` of `/sys/class/leds`.
    pub fn new(names: &[Ev3Result<Option<String>>]) -> (r: Ev3Result<Led>)
        ensures
            match led_names(names@) {
                Ok(st) => r matches Ok(led) && is_brightness(led.attributes().0, st.0)
                    && is_brightness(led.attributes().1, st.1) && is_brightness(
                    led.attributes().2,
                    st.2,
                ) && is_brightness(led.attributes().3, st.3),
                Err(x) => r matches Err(e) && e@ == x,
            },
    {
        let mut left_red_name = String::new();
        let mut left_green_name = String::new();
        let mut right_red_name = String::new();
        let mut right_green_name = String::new();
        let mut i: usize = 0;
        assert(names@.take(0) =~= Seq::<Ev3Result<Option<String>>>::empty());
        while i < names.len()
            invariant
                i <= names@.len(),
                led_names(names@.take(i as int)) == Ok::<LedNames, error::ErrorView>(
                    (left_red_name@, left_green_name@, right_red_name@, right_green_name@),
                ),
            decreases names.len() - i,
        {
            assert(names@.take(i + 1).drop_last() == names@.take(i as int));
            assert(names@.take(i + 1).last() == names@[i as int]);
            let name = match &names[i] {
                Err(e) => {
                    proof {
                        lemma_led_names_error(names@, i as int, names@.len() as int);
                        assert(names@.take(names@.len() as int) == names@);
                    }
                    return Err(e.duplicate());
                },
                Ok(None) => {
                    proof {
                        lemma_led_names_error(names@, i as int, names@.len() as int);
                        assert(names@.take(names@.len() as int) == names@);
                    }
                    return Err(Ev3Error::InternalError { msg: "Cannot unwrap option".to_owned() });
                },
                Ok(Some(n)) => n.clone(),
            };
            let s = name.as_str();
            if text::contains(s, ":brick-status") || text::contains(s, ":ev3dev") {
                if text::contains(s, "led0:") || text::contains(s, "left:") {
                    if text::contains(s, "red:") {
                        left_red_name = name;
                    } else if text::contains(s, "green:") {
                        left_green_name = name;
                    }
                } else if text::contains(s, "led1:") || text::contains(s, "right:") {
                    if text::contains(s, "red:") {
                        right_red_name = name;
                    } else if text::contains(s, "green:") {
                        right_green_name = name;
                    }
                }
            }
            i += 1;
        }
        assert(names@.take(names@.len() as int) == names@);
        Ok(
            Led {
                left_red: Attribute::new("leds", left_red_name.as_str(), "brightness"),
                left_green: Attribute::new("leds", left_green_name.as_str(), "brightness"),
                right_red: Attribute::new("leds", right_red_name.as_str(), "brightness"),
                right_green: Attribute::new("leds", right_green_name.as_str(), "brightness"),
            },
        )
    }

    /// The `brightness` attributes of the leds, to be read and written: left red, left green,
    /// right red, right green.
    pub fn brightness_attributes(&self) -> (r: (Attribute, Attribute, Attribute, Attribute))
        ensures
            same_attribute(r.0, self.attributes().0),
            same_attribute(r.1, self.attributes().1),
            same_attribute(r.2, self.attributes().2),
            same_attribute(r.3, self.attributes().3),
    {
        (self.left_red.duplicate(), self.left_green.duplicate(), self.right_red.duplicate(), self.right_green.duplicate())
    }

    /// The color of the left led, from the reads of its red and green brightness.
    pub fn get_left_color(&self, red: Ev3Result<u8>, green: Ev3Result<u8>) -> (r: Ev3Result<Color>)
        ensures
            (red is Ok && green is Ok) ==> r == Ok::<Color, Ev3Error>((red->Ok_0, green->Ok_0)),
            match r {
                Ok(c) => color_outcome(red, green) == Ok::<Color, error::ErrorView>(c),
                Err(e) => color_outcome(red, green) == Err::<Color, error::ErrorView>(e@),
            },
    {
        color_of(red, green)
    }

    /// The color of the right led, from the reads of its red and green brightness.
    pub fn get_right_color(&self, red: Ev3Result<u8>, green: Ev3Result<u8>) -> (r: Ev3Result<Color>)
        ensures
            (red is Ok && green is Ok) ==> r == Ok::<Color, Ev3Error>((red->Ok_0, green->Ok_0)),
            match r {
                Ok(c) => color_outcome(red, green) == Ok::<Color, error::ErrorView>(c),
                Err(e) => color_outcome(red, green) == Err::<Color, error::ErrorView>(e@),
            },
    {
        color_of(red, green)
    }

    /// The color of both leds if they have the same color, `None` otherwise,
    /// from what `get_left_color` and `get_right_color` gave.
    pub fn get_color(&self, left: Ev3Result<Color>, right: Ev3Result<Color>) -> (r: Ev3Result<Option<Color>>)
        ensures
            match r {
                Ok(c) => common_color(error::outcome(left), error::outcome(right)) == Ok::<
                    Option<Color>,
                    error::ErrorView,
                >(c),
                Err(e) => common_color(error::outcome(left), error::outcome(right)) == Err::<
                    Option<Color>,
                    error::ErrorView,
                >(e@),
            },
    {
        let left = left?;
        let right = right?;
        if left.0 == right.0 && left.1 == right.1 {
            Ok(Some(left))
        } else {
            Ok(None)
        }
    }

    /// Sets the color of the left led: writes its red, then its green brightness.
    pub fn set_left_color(&self, color: Color) -> (r: Vec<AttributeWrite>)
        ensures
            r@.len() == 2,
            writes_to(r@[0], self.attributes().0, number::int_text(color.0 as int)),
            writes_to(r@[1], self.attributes().1, number::int_text(color.1 as int)),
    {
        let mut r: Vec<AttributeWrite> = Vec::new();
        r.push(AttributeWrite { attribute: self.left_red.duplicate(), value: Attribute::set_u8(color.0) });
        r.push(AttributeWrite { attribute: self.left_green.duplicate(), value: Attribute::set_u8(color.1) });
        r
    }

    /// Sets the color of the right led: writes its red, then its green brightness.
    pub fn set_right_color(&self, color: Color) -> (r: Vec<AttributeWrite>)
        ensures
            r@.len() == 2,
            writes_to(r@[0], self.attributes().2, number::int_text(color.0 as int)),
            writes_to(r@[1], self.attributes().3, number::int_text(color.1 as int)),
    {
        let mut r: Vec<AttributeWrite> = Vec::new();
        r.push(AttributeWrite { attribute: self.right_red.duplicate(), value: Attribute::set_u8(color.0) });
        r.push(AttributeWrite { attribute: self.right_green.duplicate(), value: Attribute::set_u8(color.1) });
        r
    }

    /// Sets the color of both leds: the writes of `set_left_color`, then those of
    /// `set_right_color`.
    pub fn set_color(&self, color: Color) -> (r: Vec<AttributeWrite>)
        ensures
            r@.len() == 4,
            writes_to(r@[0], self.attributes().0, number::int_text(color.0 as int)),
            writes_to(r@[1], self.attributes().1, number::int_text(color.1 as int)),
            writes_to(r@[2], self.attributes().2, number::int_text(color.0 as int)),
            writes_to(r@[3], self.attributes().3, number::int_text(color.1 as int)),
    {
        let mut r = self.set_left_color(color);
        let mut right = self.set_right_color(color);
        r.append(&mut right);
        r
    }
}

proof fn lemma_led_names_error(names: Seq<Ev3Result<Option<String>>>, i: int, n: int)
    requires
        0 <= i < n <= names.len(),
        led_names(names.take(i)) is Ok,
        driver::name_outcome(names[i]) is Err,
    ensures
        led_names(names.take(n)) == Err::<LedNames, error::ErrorView>(
            driver::name_outcome(names[i])->Err_0,
        ),
    decreases n,
{
    if n == i + 1 {
        assert(names.take(n).drop_last() == names.take(i));
        assert(names.take(n).last() == names[i]);
    } else {
        lemma_led_names_error(names, i, n - 1);
        assert(names.take(n).drop_last() == names.take(n - 1));
    }
}

/// A directory of `/sys/class/leds` that is not a status led changes nothing: inserting its
/// entry anywhere among the entries leaves the chosen leds, and whether the choice succeeds, as
/// they were.
pub proof fn lemma_led_names_ignore_other(
    names: Seq<Ev3Result<Option<String>>>,
    i: int,
    entry: Ev3Result<Option<String>>,
)
    requires
        0 <= i <= names.len(),
        entry matches Ok(Some(n)) && !is_status_led(n@),
    ensures
        led_names(names.insert(i, entry)) == led_names(names),
    decreases names.len(),
{
    let m = names.insert(i, entry);
    if i == names.len() {
        assert(m.drop_last() =~= names);
        assert(m.last() == entry);
    } else {
        lemma_led_names_ignore_other(names.drop_last(), i, entry);
        assert(m.drop_last() =~= names.drop_last().insert(i, entry));
        assert(m.last() == names.last());
    }
}

/// Setting both leds to a color and reading them back gives that color: where each brightness
/// read gives back the text that `set_color` wrote, `get_color` gives `Some(color)`.
pub proof fn lemma_set_color_get_color(color: Color)
    ensures
        common_color(
            color_outcome_of_texts(number::int_text(color.0 as int), number::int_text(color.1 as int)),
            color_outcome_of_texts(number::int_text(color.0 as int), number::int_text(color.1 as int)),
        ) == Ok::<Option<Color>, error::ErrorView>(Some(color)),
{
    attribute::lemma_u8_write_read(color.0);
    attribute::lemma_u8_write_read(color.1);
}

/// A led's color is its red brightness, then its green brightness: reads of `r` and `g` give the
/// color `(r, g)`, whether the reads are given as values or as the texts of the brightness files;
/// the first failed read, red before green, gives the error.
pub proof fn lemma_color_is_red_then_green(r: u8, g: u8, e: Ev3Error, x: Ev3Result<u8>)
    ensures
        color_outcome(Ok(r), Ok(g)) == Ok::<Color, error::ErrorView>((r, g)),
        color_outcome_of_texts(number::int_text(r as int), number::int_text(g as int)) == Ok::<
            Color,
            error::ErrorView,
        >((r, g)),
        color_outcome(Err(e), x) == Err::<Color, error::ErrorView>(e@),
        color_outcome(Ok(r), Err(e)) == Err::<Color, error::ErrorView>(e@),
{
    attribute::lemma_u8_write_read(r);
    attribute::lemma_u8_write_read(g);
}

/// The color that brightness files holding the texts `red` and `green` give.
pub open spec fn color_outcome_of_texts(red: Seq<char>, green: Seq<char>) -> Result<Color, error::ErrorView> {
    match (attribute::decode_u8_spec(red), attribute::decode_u8_spec(green)) {
        (Err(e), _) => Err(e),
        (Ok(_), Err(e)) => Err(e),
        (Ok(r), Ok(g)) => Ok((r, g)),
    }
}

} // verus!
