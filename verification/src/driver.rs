//! Devices of a class, and the search for the device on a port or with a driver.
use vstd::prelude::*;
use crate::attribute::Attribute;
use crate::error::{self, Ev3Error, Ev3Result};
use crate::port::Port;
use crate::text;

verus! {

/// What was read of one entry of a class directory `/sys/class/{class_name}/`.
#[derive(Debug)]
pub struct DeviceEntry {
    /// The entry's file name: an error where the entry could not be read,
    /// `None` where the name is not valid UTF-8.
    pub name: Ev3Result<Option<String>>,
    /// The text of the entry's `address` attribute, or the error that reading it gave.
    pub address: Ev3Result<String>,
    /// The text of the entry's `driver_name` attribute, or the error that reading it gave.
    pub driver_name: Ev3Result<String>,
}

/// The entry's name, or the error that getting it gives.
pub open spec fn name_outcome(r: Ev3Result<Option<String>>) -> Result<Seq<char>, error::ErrorView> {
    match r {
        Err(e) => Err(e@),
        Ok(None) => Err(error::ErrorView::InternalError(error::unwrap_failure_text())),
        Ok(Some(n)) => Ok(n@),
    }
}

/// The value of an attribute read as a string, or the error that reading it gave.
pub open spec fn text_outcome(r: Ev3Result<String>) -> Result<Seq<char>, error::ErrorView> {
    match r {
        Err(e) => Err(e@),
        Ok(t) => Ok(text::trim_end_spec(t@)),
    }
}

/// The device that the search by port and driver name settles on among `es`, or its error:
/// the first entry whose address contains `port` and whose driver name is `driver`.
/// An entry's driver name is only looked at where its address contains `port`.
pub open spec fn search_port_driver(es: Seq<DeviceEntry>, port: Seq<char>, driver: Seq<char>) -> Result<
    Seq<char>,
    error::ErrorView,
>
    decreases es.len(),
{
    if es.len() == 0 {
        Err(error::ErrorView::NotFound)
    } else {
        let rest = search_port_driver(es.drop_first(), port, driver);
        match name_outcome(es[0].name) {
            Err(x) => Err(x),
            Ok(n) => match text_outcome(es[0].address) {
                Err(x) => Err(x),
                Ok(a) => if text::contains_seq(a, port) {
                    match text_outcome(es[0].driver_name) {
                        Err(x) => Err(x),
                        Ok(d) => if d == driver {
                            Ok(n)
                        } else {
                            rest
                        },
                    }
                } else {
                    rest
                },
            },
        }
    }
}

/// The names, in order, of the entries of `es` whose address contains `port`,
/// or the error of the first entry that could not be read.
pub open spec fn search_port_all(es: Seq<DeviceEntry>, port: Seq<char>) -> Result<
    Seq<Seq<char>>,
    error::ErrorView,
>
    decreases es.len(),
{
    if es.len() == 0 {
        Ok(seq![])
    } else {
        match name_outcome(es[0].name) {
            Err(x) => Err(x),
            Ok(n) => match text_outcome(es[0].address) {
                Err(x) => Err(x),
                Ok(a) => match search_port_all(es.drop_first(), port) {
                    Err(x) => Err(x),
                    Ok(ns) => Ok(
                        if text::contains_seq(a, port) {
                            seq![n] + ns
                        } else {
                            ns
                        },
                    ),
                },
            },
        }
    }
}

/// The single name among `found`, or `NotFound` for none and `MultipleMatches` for more.
pub open spec fn single(found: Result<Seq<Seq<char>>, error::ErrorView>) -> Result<Seq<char>, error::ErrorView> {
    match found {
        Err(x) => Err(x),
        Ok(ns) => if ns.len() == 0 {
            Err(error::ErrorView::NotFound)
        } else if ns.len() == 1 {
            Ok(ns[0])
        } else {
            Err(error::ErrorView::MultipleMatches)
        },
    }
}

/// The names, in order, of the entries of `es` whose driver name is `driver`,
/// or the error of the first entry that could not be read.
pub open spec fn search_driver(es: Seq<DeviceEntry>, driver: Seq<char>) -> Result<
    Seq<Seq<char>>,
    error::ErrorView,
>
    decreases es.len(),
{
    if es.len() == 0 {
        Ok(seq![])
    } else {
        match name_outcome(es[0].name) {
            Err(x) => Err(x),
            Ok(n) => match text_outcome(es[0].driver_name) {
                Err(x) => Err(x),
                Ok(d) => match search_driver(es.drop_first(), driver) {
                    Err(x) => Err(x),
                    Ok(ns) => Ok(
                        if d == driver {
                            seq![n] + ns
                        } else {
                            ns
                        },
                    ),
                },
            },
        }
    }
}

/// The single device among `es` with driver `driver`, or the error.
pub open spec fn search_single_driver(es: Seq<DeviceEntry>, driver: Seq<char>) -> Result<
    Seq<char>,
    error::ErrorView,
> {
    single(search_driver(es, driver))
}

/// The device that `Findable::find` settles on among `es`: the single device with driver
/// `driver`, `NotFound` where there is none or more than one, or the error of the first entry
/// that could not be read.
pub open spec fn search_only_driver(es: Seq<DeviceEntry>, driver: Seq<char>) -> Result<
    Seq<char>,
    error::ErrorView,
> {
    match search_driver(es, driver) {
        Err(x) => Err(x),
        Ok(ns) => if ns.len() == 1 {
            Ok(ns[0])
        } else {
            Err(error::ErrorView::NotFound)
        },
    }
}

/// The single device among `es` at port `port`, or the error.
pub open spec fn search_port(es: Seq<DeviceEntry>, port: Seq<char>) -> Result<Seq<char>, error::ErrorView> {
    single(search_port_all(es, port))
}

/// The entry's name, or the error that getting it gives.
fn entry_name(r: &Ev3Result<Option<String>>) -> (n: Ev3Result<String>)
    ensures
        error::outcome(n) == name_outcome(*r),
{
    match r {
        Err(e) => Err(e.duplicate()),
        Ok(None) => {
            let none: Option<String> = None;
            error::OrErr::or_err(none)
        },
        Ok(Some(n)) => Ok(n.clone()),
    }
}

/// The value of an attribute read as a string, or the error that reading it gave.
fn entry_text(r: &Ev3Result<String>) -> (t: Ev3Result<String>)
    ensures
        error::outcome(t) == text_outcome(*r),
{
    match r {
        Err(e) => Err(e.duplicate()),
        Ok(t) => Ok(Attribute::get_str(t.as_str())),
    }
}

/// Helper struct that manages attributes: the device `name` of class `class_name`.
#[derive(Debug, Clone)]
pub struct Driver {
    /// The class of the device, such as `tacho-motor`.
    pub class_name: String,
    /// The device's directory in its class, such as `motor0`.
    pub name: String,
}

impl Driver {
    /// Returns a new `Driver`.
    /// The attributes of this driver are the files `/sys/class/{class_name}/{name}{attribute_name}`.
    pub fn new(class_name: &str, name: &str) -> (d: Driver)
        ensures
            d.class_name@ == class_name@,
            d.name@ == name@,
    {
        Driver { class_name: class_name.to_owned(), name: name.to_owned() }
    }

    /// The attribute `attribute_name` of this device.
    pub fn get_attribute(&self, attribute_name: &str) -> (a: Attribute)
        ensures
            a.class_name@ == self.class_name@,
            a.name@ == self.name@,
            a.attribute_name@ == attribute_name@,
    {
        Attribute::new(self.class_name.as_str(), self.name.as_str(), attribute_name)
    }

    /// Returns the name of the device with the given `driver_name` and at the given `port`,
    /// among the entries `entries` of the class directory.
    ///
    /// Returns `Ev3Error::NotFound` if no such device exists.
    pub fn find_name_by_port_and_driver<P: Port>(
        entries: &[DeviceEntry],
        port: &P,
        driver_name: &str,
    ) -> (r: Ev3Result<String>)
        ensures
            error::outcome(r) == search_port_driver(entries@, port.port_address(), driver_name@),
    {
        let port_address = port.address();
        let mut i: usize = 0;
        assert(entries@.skip(0) == entries@);
        while i < entries.len()
            invariant
                i <= entries@.len(),
                port_address@ == port.port_address(),
                search_port_driver(entries@, port.port_address(), driver_name@) == search_port_driver(
                    entries@.skip(i as int),
                    port.port_address(),
                    driver_name@,
                ),
            decreases entries.len() - i,
        {
            assert(entries@.skip(i as int)[0] == entries@[i as int]);
            assert(entries@.skip(i as int).drop_first() == entries@.skip(i + 1));
            let name = entry_name(&entries[i].name);
            match name {
                Err(e) => {
                    return Err(e);
                },
                Ok(name) => {
                    let address = entry_text(&entries[i].address);
                    match address {
                        Err(e) => {
                            return Err(e);
                        },
                        Ok(address) => {
                            if text::contains(address.as_str(), port_address.as_str()) {
                                let driver = entry_text(&entries[i].driver_name);
                                match driver {
                                    Err(e) => {
                                        return Err(e);
                                    },
                                    Ok(driver) => {
                                        let d = text::to_chars(driver.as_str());
                                        let w = text::to_chars(driver_name);
                                        if text::chars_equal(&d, &w) {
                                            return Ok(name);
                                        }
                                    },
                                }
                            }
                        },
                    }
                },
            }
            i += 1;
        }
        Err(Ev3Error::NotFound)
    }

    /// Returns the names of the devices at the given `port`, among the entries `entries`
    /// of the class directory.
    pub fn find_names_by_port<P: Port>(entries: &[DeviceEntry], port: &P) -> (r: Ev3Result<
        Vec<String>,
    >)
        ensures
            error::outcome(r) == search_port_all(entries@, port.port_address()),
    {
        let port_address = port.address();
        let mut found: Vec<String> = Vec::new();
        let mut i: usize = 0;
        assert(entries@.skip(0) == entries@);
        assert(found.deep_view() =~= Seq::<Seq<char>>::empty());
        assert forall|ns: Seq<Seq<char>>| #![trigger found.deep_view() + ns]
            found.deep_view() + ns == ns by {
            assert(found.deep_view() + ns =~= ns);
        }
        while i < entries.len()
            invariant
                i <= entries@.len(),
                port_address@ == port.port_address(),
                search_port_all(entries@, port.port_address()) == match search_port_all(
                    entries@.skip(i as int),
                    port.port_address(),
                ) {
                    Err(x) => Err(x),
                    Ok(ns) => Ok(found.deep_view() + ns),
                },
            decreases entries.len() - i,
        {
            assert(entries@.skip(i as int)[0] == entries@[i as int]);
            assert(entries@.skip(i as int).drop_first() == entries@.skip(i + 1));
            let name = entry_name(&entries[i].name);
            match name {
                Err(e) => {
                    return Err(e);
                },
                Ok(name) => {
                    let address = entry_text(&entries[i].address);
                    match address {
                        Err(e) => {
                            return Err(e);
                        },
                        Ok(address) => {
                            if text::contains(address.as_str(), port_address.as_str()) {
                                let ghost before = found.deep_view();
                                found.push(name);
                                proof {
                                    assert(found.deep_view() == before.push(name@));
                                    assert forall|ns: Seq<Seq<char>>|
                                        #![trigger before + (seq![name@] + ns)]
                                        before + (seq![name@] + ns) == found.deep_view() + ns by {
                                        assert(before + (seq![name@] + ns) =~= before.push(name@)
                                            + ns);
                                    }
                                }
                            }
                        },
                    }
                },
            }
            i += 1;
        }
        assert(entries@.skip(i as int).len() == 0);
        assert(found.deep_view() + Seq::<Seq<char>>::empty() == found.deep_view());
        Ok(found)
    }

    /// Returns the name of the device at the given `port`, among the entries `entries`
    /// of the class directory.
    ///
    /// Returns `Ev3Error::NotFound` if no such device exists.
    /// Returns `Ev3Error::MultipleMatches` if more then one matching device exists.
    pub fn find_name_by_port<P: Port>(entries: &[DeviceEntry], port: &P) -> (r: Ev3Result<String>)
        ensures
            error::outcome(r) == search_port(entries@, port.port_address()),
    {
        let names = Driver::find_names_by_port(entries, port)?;
        Driver::single_name(names)
    }

    fn single_name(names: Vec<String>) -> (r: Ev3Result<String>)
        ensures
            error::outcome(r) == single(Ok(names.deep_view())),
    {
        let mut names = names;
        if names.len() == 0 {
            Err(Ev3Error::NotFound)
        } else if names.len() == 1 {
            let ghost v = names.deep_view();
            let n = names.pop().unwrap();
            assert(n@ == v[0]);
            Ok(n)
        } else {
            Err(Ev3Error::MultipleMatches)
        }
    }

    /// Returns the names of the devices with the given `driver_name`, among the entries
    /// `entries` of the class directory.
    pub fn find_names_by_driver(entries: &[DeviceEntry], driver_name: &str) -> (r: Ev3Result<
        Vec<String>,
    >)
        ensures
            error::outcome(r) == search_driver(entries@, driver_name@),
    {
        let w = text::to_chars(driver_name);
        let mut found: Vec<String> = Vec::new();
        let mut i: usize = 0;
        assert(entries@.skip(0) == entries@);
        assert(found.deep_view() =~= Seq::<Seq<char>>::empty());
        assert forall|ns: Seq<Seq<char>>| #![trigger found.deep_view() + ns]
            found.deep_view() + ns == ns by {
            assert(found.deep_view() + ns =~= ns);
        }
        while i < entries.len()
            invariant
                i <= entries@.len(),
                w@ == driver_name@,
                search_driver(entries@, driver_name@) == match search_driver(
                    entries@.skip(i as int),
                    driver_name@,
                ) {
                    Err(x) => Err(x),
                    Ok(ns) => Ok(found.deep_view() + ns),
                },
            decreases entries.len() - i,
        {
            assert(entries@.skip(i as int)[0] == entries@[i as int]);
            assert(entries@.skip(i as int).drop_first() == entries@.skip(i + 1));
            let name = entry_name(&entries[i].name);
            match name {
                Err(e) => {
                    return Err(e);
                },
                Ok(name) => {
                    let driver = entry_text(&entries[i].driver_name);
                    match driver {
                        Err(e) => {
                            return Err(e);
                        },
                        Ok(driver) => {
                            let d = text::to_chars(driver.as_str());
                            if text::chars_equal(&d, &w) {
                                let ghost before = found.deep_view();
                                found.push(name);
                                proof {
                                    assert(found.deep_view() == before.push(name@));
                                    assert forall|ns: Seq<Seq<char>>|
                                        #![trigger before + (seq![name@] + ns)]
                                        before + (seq![name@] + ns) == found.deep_view() + ns by {
                                        assert(before + (seq![name@] + ns) =~= before.push(name@)
                                            + ns);
                                    }
                                }
                            }
                        },
                    }
                },
            }
            i += 1;
        }
        assert(entries@.skip(i as int).len() == 0);
        assert(found.deep_view() + Seq::<Seq<char>>::empty() == found.deep_view());
        Ok(found)
    }

    /// Returns the name of the device with the given `driver_name`, among the entries
    /// `entries` of the class directory.
    ///
    /// Returns `Ev3Error::NotFound` if no such device exists.
    /// Returns `Ev3Error::MultipleMatches` if more then one matching device exists.
    pub fn find_name_by_driver(entries: &[DeviceEntry], driver_name: &str) -> (r: Ev3Result<
        String,
    >)
        ensures
            error::outcome(r) == search_single_driver(entries@, driver_name@),
    {
        let names = Driver::find_names_by_driver(entries, driver_name)?;
        Driver::single_name(names)
    }
}

impl Driver {
    /// The name of the only device with the given `driver_name` among the entries `entries` of
    /// the class directory; `NotFound` if there is no such device or more than one.
    pub(crate) fn find_only_name_by_driver(entries: &[DeviceEntry], driver_name: &str) -> (r: Ev3Result<
        String,
    >)
        ensures
            error::outcome(r) == search_only_driver(entries@, driver_name@),
    {
        let mut names = Driver::find_names_by_driver(entries, driver_name)?;
        if names.len() == 1 {
            let ghost v = names.deep_view();
            let n = names.pop().unwrap();
            assert(n@ == v[0]);
            Ok(n)
        } else {
            Err(Ev3Error::NotFound)
        }
    }
}

impl Driver {
    /// How the driver shows itself: `Driver { class_name: <class_name>, name: <name> }`.
    pub fn debug_text(&self) -> (r: String)
        ensures
            r@ == "Driver { class_name: "@ + self.class_name@ + ", name: "@ + self.name@ + " }"@,
    {
        let mut r = "Driver { class_name: ".to_owned();
        crate::attribute::push_str(&mut r, self.class_name.as_str());
        crate::attribute::push_str(&mut r, ", name: ");
        crate::attribute::push_str(&mut r, self.name.as_str());
        crate::attribute::push_str(&mut r, " }");
        r
    }
}

/// Every entry of `es` could be read: its name, its address and its driver name.
pub open spec fn all_readable(es: Seq<DeviceEntry>) -> bool {
    forall|i: int|
        0 <= i < es.len() ==> name_outcome(#[trigger] es[i].name) is Ok && text_outcome(es[i].address) is Ok
            && text_outcome(es[i].driver_name) is Ok
}

/// Entry `e` is a device at `port` with driver `driver`.
pub open spec fn at_port_with_driver(e: DeviceEntry, port: Seq<char>, driver: Seq<char>) -> bool {
    &&& text_outcome(e.address) matches Ok(a) && text::contains_seq(a, port)
    &&& text_outcome(e.driver_name) == Ok::<Seq<char>, error::ErrorView>(driver)
}

/// Entry `e` has driver `driver`.
pub open spec fn has_driver(e: DeviceEntry, driver: Seq<char>) -> bool {
    text_outcome(e.driver_name) == Ok::<Seq<char>, error::ErrorView>(driver)
}

/// The number of entries of `es` with driver `driver`.
pub open spec fn driver_count(es: Seq<DeviceEntry>, driver: Seq<char>) -> nat
    decreases es.len(),
{
    if es.len() == 0 {
        0
    } else {
        (if has_driver(es[0], driver) {
            1nat
        } else {
            0nat
        }) + driver_count(es.drop_first(), driver)
    }
}

/// The search by port and driver name only finds a device at that port with that driver, and
/// where every entry could be read it finds the first one: it reports `NotFound` exactly
/// when no entry is at that port with that driver.
pub proof fn lemma_search_port_driver(es: Seq<DeviceEntry>, port: Seq<char>, driver: Seq<char>)
    ensures
        search_port_driver(es, port, driver) matches Ok(n) ==> exists|i: int|
            0 <= i < es.len() && name_outcome(#[trigger] es[i].name) == Ok::<Seq<char>, error::ErrorView>(n)
                && at_port_with_driver(es[i], port, driver),
        all_readable(es) ==> (search_port_driver(es, port, driver) == Err::<Seq<char>, error::ErrorView>(
            error::ErrorView::NotFound,
        ) <==> forall|i: int| 0 <= i < es.len() ==> !at_port_with_driver(#[trigger] es[i], port, driver)),
        all_readable(es) ==> (search_port_driver(es, port, driver) is Ok || search_port_driver(es, port, driver) == Err::<Seq<char>, error::ErrorView>(error::ErrorView::NotFound)),
    decreases es.len(),
{
    if es.len() > 0 {
        let t = es.drop_first();
        lemma_search_port_driver(t, port, driver);
        assert forall|i: int| 0 <= i < t.len() implies #[trigger] t[i] == es[i + 1] by {}
        if all_readable(es) {
            assert forall|i: int| 0 <= i < t.len() implies name_outcome(#[trigger] t[i].name) is Ok
                && text_outcome(t[i].address) is Ok && text_outcome(t[i].driver_name) is Ok by {
                assert(t[i] == es[i + 1]);
            }
            assert(name_outcome(es[0].name) is Ok);
        }
        if let Ok(n) = search_port_driver(es, port, driver) {
            if search_port_driver(t, port, driver) == search_port_driver(es, port, driver) && !(
            name_outcome(es[0].name) == Ok::<Seq<char>, error::ErrorView>(n) && at_port_with_driver(es[0], port, driver)) {
                let i = choose|i: int|
                    0 <= i < t.len() && name_outcome(#[trigger] t[i].name) == Ok::<
                        Seq<char>,
                        error::ErrorView,
                    >(n) && at_port_with_driver(t[i], port, driver);
                assert(es[i + 1] == t[i]);
            }
        }
        if all_readable(es) && search_port_driver(es, port, driver) == Err::<Seq<char>, error::ErrorView>(
            error::ErrorView::NotFound,
        ) {
            assert forall|i: int| 0 <= i < es.len() implies !at_port_with_driver(#[trigger] es[i], port, driver) by {
                if i > 0 {
                    assert(es[i] == t[i - 1]);
                }
            }
        }
        if all_readable(es) && (forall|i: int| 0 <= i < es.len() ==> !at_port_with_driver(#[trigger] es[i], port, driver)) {
            assert forall|i: int| 0 <= i < t.len() implies !at_port_with_driver(#[trigger] t[i], port, driver) by {
                assert(t[i] == es[i + 1]);
            }
            assert(!at_port_with_driver(es[0], port, driver));
        }
    }
}

/// Some entry of `es` with driver `driver` is named `n`.
pub open spec fn named_with_driver(es: Seq<DeviceEntry>, driver: Seq<char>, n: Seq<char>) -> bool {
    exists|i: int|
        0 <= i < es.len() && has_driver(#[trigger] es[i], driver) && name_outcome(es[i].name)
            == Ok::<Seq<char>, error::ErrorView>(n)
}

/// The entries after the first of a readable list are readable.
proof fn lemma_readable_rest(es: Seq<DeviceEntry>)
    requires
        es.len() > 0,
        all_readable(es),
    ensures
        all_readable(es.drop_first()),
        name_outcome(es[0].name) is Ok,
        text_outcome(es[0].driver_name) is Ok,
{
    let t = es.drop_first();
    assert forall|i: int| 0 <= i < t.len() implies name_outcome(#[trigger] t[i].name) is Ok
        && text_outcome(t[i].address) is Ok && text_outcome(t[i].driver_name) is Ok by {
        assert(t[i] == es[i + 1]);
    }
}

/// Where every entry could be read, the search by driver succeeds and finds as many devices as
/// have the driver.
proof fn lemma_search_driver_count(es: Seq<DeviceEntry>, driver: Seq<char>)
    requires
        all_readable(es),
    ensures
        search_driver(es, driver) is Ok,
        search_driver(es, driver)->Ok_0.len() == driver_count(es, driver),
    decreases es.len(),
{
    if es.len() > 0 {
        lemma_readable_rest(es);
        lemma_search_driver_count(es.drop_first(), driver);
    }
}

/// Every name that the search by driver finds is the name of an entry with that driver.
proof fn lemma_search_driver_names(es: Seq<DeviceEntry>, driver: Seq<char>)
    requires
        all_readable(es),
    ensures
        forall|k: int|
            0 <= k < search_driver(es, driver)->Ok_0.len() ==> named_with_driver(
                es,
                driver,
                #[trigger] search_driver(es, driver)->Ok_0[k],
            ),
    decreases es.len(),
{
    if es.len() > 0 {
        let t = es.drop_first();
        lemma_readable_rest(es);
        lemma_search_driver_count(t, driver);
        lemma_search_driver_names(t, driver);
        let rest = search_driver(t, driver)->Ok_0;
        let ns = search_driver(es, driver)->Ok_0;
        assert forall|k: int| 0 <= k < ns.len() implies named_with_driver(es, driver, #[trigger] ns[k]) by {
            if has_driver(es[0], driver) && k == 0 {
                assert(has_driver(es[0], driver) && name_outcome(es[0].name) == Ok::<Seq<char>, error::ErrorView>(ns[0]));
            } else {
                let m = if has_driver(es[0], driver) { k - 1 } else { k };
                assert(ns[k] == rest[m]);
                assert(named_with_driver(t, driver, rest[m]));
                let i = choose|i: int|
                    0 <= i < t.len() && has_driver(#[trigger] t[i], driver) && name_outcome(t[i].name)
                        == Ok::<Seq<char>, error::ErrorView>(rest[m]);
                assert(es[i + 1] == t[i]);
            }
        }
    }
}

/// Where every entry could be read, the search by driver succeeds, finds as many devices as have
/// the driver, and names only entries with that driver.
proof fn lemma_search_driver_readable(es: Seq<DeviceEntry>, driver: Seq<char>)
    requires
        all_readable(es),
    ensures
        search_driver(es, driver) matches Ok(ns) && ns.len() == driver_count(es, driver),
        forall|k: int|
            0 <= k < search_driver(es, driver)->Ok_0.len() ==> named_with_driver(
                es,
                driver,
                #[trigger] search_driver(es, driver)->Ok_0[k],
            ),
{
    lemma_search_driver_count(es, driver);
    lemma_search_driver_names(es, driver);
}

/// Where every entry could be read, the search for the single device with a driver finds it
/// exactly when one device has that driver, names a device with that driver, and reports
/// `NotFound` when none has it and `MultipleMatches` when more than one has it.
pub proof fn lemma_search_single_driver(es: Seq<DeviceEntry>, driver: Seq<char>)
    requires
        all_readable(es),
    ensures
        search_single_driver(es, driver) is Ok <==> driver_count(es, driver) == 1,
        search_single_driver(es, driver) matches Ok(n) ==> exists|i: int|
            0 <= i < es.len() && has_driver(#[trigger] es[i], driver) && name_outcome(es[i].name)
                == Ok::<Seq<char>, error::ErrorView>(n),
        search_single_driver(es, driver) == Err::<Seq<char>, error::ErrorView>(error::ErrorView::NotFound)
            <==> driver_count(es, driver) == 0,
        search_single_driver(es, driver) == Err::<Seq<char>, error::ErrorView>(
            error::ErrorView::MultipleMatches,
        ) <==> driver_count(es, driver) >= 2,
{
    lemma_search_driver_readable(es, driver);
    let ns = search_driver(es, driver)->Ok_0;
    if ns.len() == 1 {
        assert(ns[0] == ns[0]);
    }
}

/// Where every entry could be read, `Findable::find` finds a device exactly when one device has
/// the driver, names a device with that driver, and reports `NotFound` otherwise.
pub proof fn lemma_search_only_driver(es: Seq<DeviceEntry>, driver: Seq<char>)
    requires
        all_readable(es),
    ensures
        search_only_driver(es, driver) is Ok <==> driver_count(es, driver) == 1,
        search_only_driver(es, driver) matches Ok(n) ==> exists|i: int|
            0 <= i < es.len() && has_driver(#[trigger] es[i], driver) && name_outcome(es[i].name)
                == Ok::<Seq<char>, error::ErrorView>(n),
        search_only_driver(es, driver) == Err::<Seq<char>, error::ErrorView>(error::ErrorView::NotFound)
            <==> driver_count(es, driver) != 1,
{
    lemma_search_driver_readable(es, driver);
    lemma_search_single_driver(es, driver);
}

} // verus!
