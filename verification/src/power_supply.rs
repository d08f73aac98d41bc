//! An interface to read data from the system’s power_supply class.
//! Uses the built-in legoev3-battery if none is specified.
use vstd::prelude::*;
use crate::attribute::Attribute;
use crate::device::Device;
use crate::driver::{self, Driver};
use crate::error::{self, Ev3Error, Ev3Result};
use crate::text;

verus! {

/// The battery that the search settles on among the entries `names` of
/// `/sys/class/power_supply`: the first whose name contains `ev3-battery`,
/// or the error of the first entry before it whose name could not be read.
pub open spec fn battery_search(names: Seq<Ev3Result<Option<String>>>) -> Result<Seq<char>, error::ErrorView>
    decreases names.len(),
{
    if names.len() == 0 {
        Err(error::ErrorView::NotFound)
    } else {
        match driver::name_outcome(names[0]) {
            Err(x) => Err(x),
            Ok(n) => if text::contains_seq(n, "ev3-battery"@) {
                Ok(n)
            } else {
                battery_search(names.drop_first())
            },
        }
    }
}

/// An interface to read data from the system’s power_supply class.
#[derive(Debug, Clone)]
pub struct PowerSupply {
    driver: Driver,
}

impl Device for PowerSupply {
    closed spec fn device_class(&self) -> Seq<char> {
        self.driver.class_name@
    }

    closed spec fn device_name(&self) -> Seq<char> {
        self.driver.name@
    }

    fn get_attribute(&self, name: &str) -> (a: Attribute) {
        self.driver.get_attribute(name)
    }
}

impl PowerSupply {
    /// Create a new instance of `PowerSupply` for the first entry of `/sys/class/power_supply`
    /// whose name contains `ev3-battery`; `names` are the names of its entries, in order.
    pub fn new(names: &[Ev3Result<Option<String>>]) -> (r: Ev3Result<PowerSupply>)
        ensures
            match battery_search(names@) {
                Ok(n) => r matches Ok(p) && p.device_class() == "power_supply"@ && p.device_name() == n,
                Err(x) => r matches Err(e) && e@ == x,
            },
    {
        let mut i: usize = 0;
        assert(names@.skip(0) == names@);
        while i < names.len()
            invariant
                i <= names@.len(),
                battery_search(names@) == battery_search(names@.skip(i as int)),
            decreases names.len() - i,
        {
            assert(names@.skip(i as int)[0] == names@[i as int]);
            assert(names@.skip(i as int).drop_first() == names@.skip(i + 1));
            let name = match &names[i] {
                Err(e) => {
                    return Err(e.duplicate());
                },
                Ok(None) => {
                    return Err(Ev3Error::InternalError { msg: "Cannot unwrap option".to_owned() });
                },
                Ok(Some(n)) => n,
            };
            if text::contains(name.as_str(), "ev3-battery") {
                return Ok(PowerSupply { driver: Driver::new("power_supply", name.as_str()) });
            }
            i += 1;
        }
        Err(Ev3Error::NotFound)
    }
}

/// The battery is the first entry whose name contains `ev3-battery` (as `legoev3-battery` and
/// `lego-ev3-battery` do): where the entries before it could be read and their names do not
/// contain it, the search gives that entry's name.
pub proof fn lemma_battery_is_first_ev3_battery(names: Seq<Ev3Result<Option<String>>>, i: int)
    requires
        0 <= i < names.len(),
        forall|k: int|
            0 <= k < i ==> (#[trigger] names[k] matches Ok(Some(m)) && !text::contains_seq(
                m@,
                seq!['e', 'v', '3', '-', 'b', 'a', 't', 't', 'e', 'r', 'y'],
            )),
        names[i] matches Ok(Some(n)) && text::contains_seq(
            n@,
            seq!['e', 'v', '3', '-', 'b', 'a', 't', 't', 'e', 'r', 'y'],
        ),
    ensures
        battery_search(names) == Ok::<Seq<char>, error::ErrorView>(names[i]->Ok_0->Some_0@),
    decreases i,
{
    reveal_strlit("ev3-battery");
    assert("ev3-battery"@ =~= seq!['e', 'v', '3', '-', 'b', 'a', 't', 't', 'e', 'r', 'y']);
    if i > 0 {
        let t = names.drop_first();
        assert forall|k: int| 0 <= k < i - 1 implies (#[trigger] t[k] matches Ok(Some(m)) && !text::contains_seq(
            m@,
            seq!['e', 'v', '3', '-', 'b', 'a', 't', 't', 'e', 'r', 'y'],
        )) by {
            assert(t[k] == names[k + 1]);
        }
        assert(t[i - 1] == names[i]);
        lemma_battery_is_first_ev3_battery(t, i - 1);
        assert(names[0] matches Ok(Some(m)) && !text::contains_seq(
            m@,
            seq!['e', 'v', '3', '-', 'b', 'a', 't', 't', 'e', 'r', 'y'],
        ));
    }
}

/// Where every entry could be read and no name contains `ev3-battery`, there is no battery.
pub proof fn lemma_no_ev3_battery(names: Seq<Ev3Result<Option<String>>>)
    requires
        forall|k: int|
            0 <= k < names.len() ==> (#[trigger] names[k] matches Ok(Some(m)) && !text::contains_seq(
                m@,
                seq!['e', 'v', '3', '-', 'b', 'a', 't', 't', 'e', 'r', 'y'],
            )),
    ensures
        battery_search(names) == Err::<Seq<char>, error::ErrorView>(error::ErrorView::NotFound),
    decreases names.len(),
{
    reveal_strlit("ev3-battery");
    assert("ev3-battery"@ =~= seq!['e', 'v', '3', '-', 'b', 'a', 't', 't', 'e', 'r', 'y']);
    if names.len() > 0 {
        let t = names.drop_first();
        assert forall|k: int| 0 <= k < t.len() implies (#[trigger] t[k] matches Ok(Some(m)) && !text::contains_seq(
            m@,
            seq!['e', 'v', '3', '-', 'b', 'a', 't', 't', 'e', 'r', 'y'],
        )) by {
            assert(t[k] == names[k + 1]);
        }
        lemma_no_ev3_battery(t);
        assert(names[0] matches Ok(Some(m)) && !text::contains_seq(
            m@,
            seq!['e', 'v', '3', '-', 'b', 'a', 't', 't', 'e', 'r', 'y'],
        ));
    }
}

} // verus!
