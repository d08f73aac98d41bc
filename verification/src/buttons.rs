//! EV3 Buttons: which buttons are pressed, from the key state buffers of the input devices.
use vstd::prelude::*;
use crate::text;

verus! {

/// Length of the key state buffer of an input device.
pub const KEY_BUF_LEN: usize = 96;

/// The input device of the brick's buttons.
pub const BUTTON_FILE: &'static str = "/dev/input/by-path/platform-gpio_keys-event";

/// An input device and the last key state buffer read from it.
#[derive(Debug)]
pub struct FileMapEntry {
    /// The path of the input device.
    pub file_name: String,
    /// The last key state buffer read from it: one bit per key code.
    pub buffer_cache: Vec<u8>,
}

/// A button: its name, its input device and its key code.
#[derive(Debug)]
pub struct ButtonMapEntry {
    /// The name of the button.
    pub name: String,
    /// The path of the input device that reports the button.
    pub file_name: String,
    /// The key code of the button.
    pub key_code: u32,
}

/// The bit of key `key_code` is set in the key state buffer `buffer`.
pub open spec fn key_bit_set(buffer: Seq<u8>, key_code: u32) -> bool {
    buffer[(key_code / 8) as int] & (1u8 << ((key_code % 8) as u8)) != 0
}

/// Index of the first entry of `files` for input device `name`, or `files.len()`.
pub open spec fn file_index(files: Seq<FileMapEntry>, name: Seq<char>) -> int
    decreases files.len(),
{
    if files.len() == 0 {
        0
    } else if files[0].file_name@ == name {
        0
    } else {
        1 + file_index(files.drop_first(), name)
    }
}

/// The names, in order, of the buttons of `buttons` whose key bit is set in the buffer of their
/// input device.
pub open spec fn pressed_names(buttons: Seq<ButtonMapEntry>, files: Seq<FileMapEntry>) -> Seq<Seq<char>>
    decreases buttons.len(),
{
    if buttons.len() == 0 {
        seq![]
    } else {
        let rest = pressed_names(buttons.drop_last(), files);
        let b = buttons.last();
        if key_bit_set(files[file_index(files, b.file_name@)].buffer_cache@, b.key_code) {
            rest.push(b.name@)
        } else {
            rest
        }
    }
}

/// No two buttons of `buttons` have the same name.
pub open spec fn distinct_button_names(buttons: Seq<ButtonMapEntry>) -> bool {
    forall|i: int, j: int|
        0 <= i < buttons.len() && 0 <= j < buttons.len() && i != j ==> #[trigger] buttons[i].name@
            != #[trigger] buttons[j].name@
}

/// Each name of `names` is the name of a button of `buttons`.
pub open spec fn names_of_buttons(names: Seq<Seq<char>>, buttons: Seq<ButtonMapEntry>) -> bool {
    forall|m: int|
        #![trigger names[m]]
        0 <= m < names.len() ==> exists|i: int|
            #![trigger buttons[i]]
            0 <= i < buttons.len() && buttons[i].name@ == names[m]
}

/// No two input devices of `files` have the same name.
pub open spec fn distinct_file_names(files: Seq<FileMapEntry>) -> bool {
    forall|i: int, j: int|
        0 <= i < files.len() && 0 <= j < files.len() && i != j ==> #[trigger] files[i].file_name@
            != #[trigger] files[j].file_name@
}

/// The key code of every button in `buttons` has its bit in a key state buffer.
pub open spec fn keys_in_buffer(buttons: Seq<ButtonMapEntry>) -> bool {
    forall|i: int| 0 <= i < buttons.len() ==> #[trigger] buttons[i].key_code < 8 * KEY_BUF_LEN
}

/// The key state buffers after a poll: the buffer of each input device that answered is
/// replaced, the others keep their last buffer.
pub open spec fn polled(files: Seq<FileMapEntry>, buffers: Seq<Option<Vec<u8>>>, i: int) -> Seq<u8> {
    match buffers[i] {
        Some(b) => b@,
        None => files[i].buffer_cache@,
    }
}

/// Handles the buttons of one or more input devices, and keeps the set of pressed buttons.
#[derive(Debug)]
pub struct ButtonFileHandler {
    files: Vec<FileMapEntry>,
    buttons: Vec<ButtonMapEntry>,
    pressed_buttons: Vec<String>,
}

proof fn lemma_file_index_bound(files: Seq<FileMapEntry>, name: Seq<char>)
    ensures
        0 <= file_index(files, name) <= files.len(),
        file_index(files, name) < files.len() ==> files[file_index(files, name)].file_name@ == name,
        file_index(files, name) == files.len() ==> forall|i: int|
            0 <= i < files.len() ==> files[i].file_name@ != name,
        forall|i: int| 0 <= i < file_index(files, name) ==> files[i].file_name@ != name,
    decreases files.len(),
{
    if files.len() > 0 && files[0].file_name@ != name {
        lemma_file_index_bound(files.drop_first(), name);
        assert forall|i: int| 0 < i < files.len() implies files[i] == files.drop_first()[i - 1] by {}
    }
}

impl ButtonFileHandler {
    /// The input devices, in the order in which they were added.
    pub closed spec fn files(&self) -> Seq<FileMapEntry> {
        self.files@
    }

    /// The buttons, in the order in which they were added.
    pub closed spec fn buttons(&self) -> Seq<ButtonMapEntry> {
        self.buttons@
    }

    /// The names of the pressed buttons, in the order of `buttons`.
    pub closed spec fn pressed(&self) -> Seq<Seq<char>> {
        self.pressed_buttons.deep_view()
    }

    /// The handler is consistent: every button's input device is known, every buffer has the
    /// full length, and no two buttons and no two input devices have the same name.
    pub closed spec fn well_formed(&self) -> bool {
        &&& forall|i: int|
            0 <= i < self.buttons@.len() ==> file_index(self.files@, #[trigger] self.buttons@[i].file_name@)
                < self.files@.len()
        &&& forall|i: int| 0 <= i < self.files@.len() ==> #[trigger] self.files@[i].buffer_cache@.len() == KEY_BUF_LEN
        &&& distinct_button_names(self.buttons@)
        &&& distinct_file_names(self.files@)
    }

    /// Create a new instance.
    pub fn new() -> (r: Self)
        ensures
            r.well_formed(),
            r.files().len() == 0,
            r.buttons().len() == 0,
            r.pressed().len() == 0,
    {
        let r = ButtonFileHandler { files: Vec::new(), buttons: Vec::new(), pressed_buttons: Vec::new() };
        assert(r.pressed_buttons.deep_view() =~= Seq::<Seq<char>>::empty());
        r
    }

    /// Index of the first input device named `file_name`, or the number of input devices.
    fn find_file(&self, file_name: &str) -> (r: usize)
        ensures
            r as int == file_index(self.files@, file_name@),
    {
        proof {
            lemma_file_index_bound(self.files@, file_name@);
        }
        let f = text::to_chars(file_name);
        let mut i: usize = 0;
        while i < self.files.len()
            invariant
                i <= self.files@.len(),
                f@ == file_name@,
                forall|k: int| 0 <= k < i ==> self.files@[k].file_name@ != file_name@,
            decreases self.files.len() - i,
        {
            let g = text::to_chars(self.files[i].file_name.as_str());
            if text::chars_equal(&g, &f) {
                proof {
                    lemma_file_index_is_first(self.files@, file_name@, i as int);
                }
                return i;
            }
            i += 1;
        }
        proof {
            lemma_file_index_is_first(self.files@, file_name@, i as int);
        }
        i
    }

    /// Whether input device `file_name` has been added.
    pub fn has_file(&self, file_name: &str) -> (r: bool)
        ensures
            r == (file_index(self.files(), file_name@) < self.files().len()),
    {
        self.find_file(file_name) < self.files.len()
    }

    /// Index of the first button named `name`, or the number of buttons.
    fn find_button(&self, name: &str) -> (r: usize)
        ensures
            r <= self.buttons@.len(),
            r < self.buttons@.len() ==> self.buttons@[r as int].name@ == name@,
            forall|k: int| 0 <= k < r ==> self.buttons@[k].name@ != name@,
    {
        let f = text::to_chars(name);
        let mut i: usize = 0;
        while i < self.buttons.len()
            invariant
                i <= self.buttons@.len(),
                f@ == name@,
                forall|k: int| 0 <= k < i ==> self.buttons@[k].name@ != name@,
            decreases self.buttons.len() - i,
        {
            let g = text::to_chars(self.buttons[i].name.as_str());
            if text::chars_equal(&g, &f) {
                return i;
            }
            i += 1;
        }
        i
    }
}


/// Index of the first button named `name` among `buttons`, or `buttons.len()`.
pub open spec fn button_index(buttons: Seq<ButtonMapEntry>, name: Seq<char>) -> int
    decreases buttons.len(),
{
    if buttons.len() == 0 {
        0
    } else if buttons[0].name@ == name {
        0
    } else {
        1 + button_index(buttons.drop_first(), name)
    }
}

/// The button `b` is named `name`, is reported by `file_name` and has key code `key_code`.
pub open spec fn is_button(b: ButtonMapEntry, name: Seq<char>, file_name: Seq<char>, key_code: u32) -> bool {
    b.name@ == name && b.file_name@ == file_name && b.key_code == key_code
}

/// `a` and `b` describe the same button.
pub open spec fn same_button(a: ButtonMapEntry, b: ButtonMapEntry) -> bool {
    is_button(a, b.name@, b.file_name@, b.key_code)
}

impl ButtonFileHandler {
    /// Adds a button: the button `name` is reported by input device `file_name` with key code
    /// `key_code`. An input device that is new gets an all-clear key state buffer; a button
    /// that exists is replaced in place.
    pub fn add_button(&mut self, name: &str, file_name: &str, key_code: u32)
        requires
            old(self).well_formed(),
        ensures
            final(self).well_formed(),
            final(self).pressed() == old(self).pressed(),
            file_index(old(self).files(), file_name@) < old(self).files().len() ==> final(self).files()
                == old(self).files(),
            file_index(old(self).files(), file_name@) == old(self).files().len() ==> {
                &&& final(self).files().len() == old(self).files().len() + 1
                &&& final(self).files().drop_last() == old(self).files()
                &&& final(self).files().last().file_name@ == file_name@
                &&& final(self).files().last().buffer_cache@ == Seq::new(KEY_BUF_LEN as nat, |k: int| 0u8)
            },
            ({
                let j = button_index(old(self).buttons(), name@);
                let n = old(self).buttons().len() as int;
                if j < n {
                    &&& final(self).buttons().len() == n
                    &&& is_button(final(self).buttons()[j], name@, file_name@, key_code)
                    &&& forall|k: int| 0 <= k < n && k != j ==> same_button(#[trigger] final(self).buttons()[k], old(self).buttons()[k])
                } else {
                    &&& final(self).buttons().len() == n + 1
                    &&& is_button(final(self).buttons()[n], name@, file_name@, key_code)
                    &&& forall|k: int| 0 <= k < n ==> same_button(#[trigger] final(self).buttons()[k], old(self).buttons()[k])
                }
            }),
    {
        proof {
            lemma_file_index_bound(self.files@, file_name@);
        }
        if !self.has_file(file_name) {
            let mut buffer_cache: Vec<u8> = Vec::new();
            let mut k: usize = 0;
            while k < KEY_BUF_LEN
                invariant
                    k <= KEY_BUF_LEN,
                    buffer_cache@ == Seq::new(k as nat, |j: int| 0u8),
                decreases KEY_BUF_LEN - k,
            {
                buffer_cache.push(0u8);
                k += 1;
            }
            let ghost before = self.files@;
            self.files.push(FileMapEntry { file_name: file_name.to_owned(), buffer_cache });
            proof {
                assert(self.files@.drop_last() == before);
                assert forall|k: int| 0 <= k < before.len() implies self.files@[k].file_name@ != file_name@ by {
                    assert(self.files@[k] == before[k]);
                }
                lemma_file_index_is_first(self.files@, file_name@, before.len() as int);
                assert forall|i: int| 0 <= i < self.buttons@.len() implies file_index(self.files@, #[trigger] self.buttons@[i].file_name@) < self.files@.len() by {
                    lemma_file_index_bound(before, self.buttons@[i].file_name@);
                    lemma_file_index_prefix(before, self.files@, self.buttons@[i].file_name@);
                }
            }
        }
        proof {
            lemma_file_index_bound(self.files@, file_name@);
        }
        let j = self.find_button(name);
        let entry = ButtonMapEntry { name: name.to_owned(), file_name: file_name.to_owned(), key_code };
        proof {
            lemma_button_index_is_first(self.buttons@, name@, j as int);
        }
        let ghost files = self.files@;
        let ghost before = self.buttons@;
        assert(file_index(files, entry.file_name@) < files.len());
        if j < self.buttons.len() {
            self.buttons.set(j, entry);
        } else {
            self.buttons.push(entry);
        }
        assert(forall|i: int| 0 <= i < self.buttons@.len() ==> #[trigger] self.buttons@[i] == before[i]
            || self.buttons@[i] == entry);
    }
}


fn copy_bytes(v: &Vec<u8>) -> (r: Vec<u8>)
    ensures
        r@ == v@,
{
    let mut r: Vec<u8> = Vec::new();
    let mut i: usize = 0;
    while i < v.len()
        invariant
            i <= v@.len(),
            r@ == v@.take(i as int),
        decreases v.len() - i,
    {
        r.push(v[i]);
        i += 1;
        assert(v@.take(i as int) == v@.take(i - 1).push(v@[i - 1]));
    }
    assert(v@.take(v@.len() as int) == v@);
    r
}

/// Two lists of input devices with the same names, in the same order.
pub open spec fn same_file_names(a: Seq<FileMapEntry>, b: Seq<FileMapEntry>) -> bool {
    a.len() == b.len() && forall|i: int| 0 <= i < a.len() ==> #[trigger] a[i].file_name@ == b[i].file_name@
}

proof fn lemma_file_index_same_names(a: Seq<FileMapEntry>, b: Seq<FileMapEntry>, name: Seq<char>)
    requires
        same_file_names(a, b),
    ensures
        file_index(a, name) == file_index(b, name),
    decreases a.len(),
{
    if a.len() > 0 {
        assert(a[0].file_name@ == b[0].file_name@);
        assert forall|i: int| 0 <= i < a.len() - 1 implies #[trigger] a.drop_first()[i].file_name@ == b.drop_first()[i].file_name@ by {
            assert(a[i + 1].file_name@ == b[i + 1].file_name@);
        }
        lemma_file_index_same_names(a.drop_first(), b.drop_first(), name);
    }
}

impl ButtonFileHandler {
    /// Check for currently pressed buttons, from a poll of the key state of every input device:
    /// `buffers[i]` is what the poll of the `i`-th input device gave, `None` where it failed.
    /// The pressed buttons are then those whose key bit is set in the buffer of their device;
    /// every button's key code must have its bit within the buffer.
    pub fn process(&mut self, buffers: &[Option<Vec<u8>>])
        requires
            old(self).well_formed(),
            keys_in_buffer(old(self).buttons()),
            buffers@.len() == old(self).files().len(),
            forall|i: int|
                0 <= i < buffers@.len() ==> (#[trigger] buffers@[i] matches Some(b) ==> b@.len()
                    == KEY_BUF_LEN),
        ensures
            final(self).well_formed(),
            same_file_names(final(self).files(), old(self).files()),
            forall|i: int|
                0 <= i < final(self).files().len() ==> #[trigger] final(self).files()[i].buffer_cache@
                    == polled(old(self).files(), buffers@, i),
            final(self).buttons() == old(self).buttons(),
            final(self).pressed() == pressed_names(final(self).buttons(), final(self).files()),
            names_of_buttons(final(self).pressed(), final(self).buttons()),
            final(self).pressed().no_duplicates(),
    {
        let ghost old_files = self.files@;
        let mut files: Vec<FileMapEntry> = Vec::new();
        let mut i: usize = 0;
        while i < self.files.len()
            invariant
                i <= self.files@.len(),
                self.files@ == old_files,
                buffers@.len() == old_files.len(),
                forall|k: int|
                    0 <= k < buffers@.len() ==> (#[trigger] buffers@[k] matches Some(b) ==> b@.len()
                        == KEY_BUF_LEN),
                forall|k: int| 0 <= k < old_files.len() ==> #[trigger] old_files[k].buffer_cache@.len() == KEY_BUF_LEN,
                files@.len() == i,
                forall|k: int|
                    #![trigger files@[k]]
                    0 <= k < i ==> files@[k].file_name@ == old_files[k].file_name@
                        && files@[k].buffer_cache@ == polled(old_files, buffers@, k),
            decreases self.files.len() - i,
        {
            let buffer_cache = match &buffers[i] {
                Some(b) => copy_bytes(b),
                None => copy_bytes(&self.files[i].buffer_cache),
            };
            let ghost prev = files@;
            files.push(FileMapEntry { file_name: self.files[i].file_name.clone(), buffer_cache });
            assert(files@[i as int].buffer_cache@ == polled(old_files, buffers@, i as int));
            assert(forall|k: int| 0 <= k < i ==> #[trigger] files@[k] == prev[k]);
            i += 1;
        }
        self.files = files;
        proof {
            assert forall|k: int| 0 <= k < self.files@.len() implies #[trigger] self.files@[k].buffer_cache@.len() == KEY_BUF_LEN by {
                assert(self.files@[k].buffer_cache@ == polled(old_files, buffers@, k));
                match buffers@[k] {
                    Some(b) => {
                        assert(buffers@[k] matches Some(b) ==> b@.len() == KEY_BUF_LEN);
                    },
                    None => {},
                }
            }
            assert forall|k: int| 0 <= k < self.buttons@.len() implies file_index(self.files@, #[trigger] self.buttons@[k].file_name@) < self.files@.len() by {
                lemma_file_index_same_names(self.files@, old_files, self.buttons@[k].file_name@);
            }
        }
        let mut pressed: Vec<String> = Vec::new();
        let mut j: usize = 0;
        assert(self.buttons@.take(0) =~= Seq::<ButtonMapEntry>::empty());
        while j < self.buttons.len()
            invariant
                j <= self.buttons@.len(),
                self.well_formed(),
                keys_in_buffer(self.buttons@),
                pressed.deep_view() == pressed_names(self.buttons@.take(j as int), self.files@),
            decreases self.buttons.len() - j,
        {
            assert(self.buttons@.take(j + 1).drop_last() == self.buttons@.take(j as int));
            assert(self.buttons@.take(j + 1).last() == self.buttons@[j as int]);
            let key_code = self.buttons[j].key_code;
            let f = self.find_file(self.buttons[j].file_name.as_str());
            assert(f < self.files@.len());
            let byte = self.files[f].buffer_cache[(key_code / 8) as usize];
            if byte & (1u8 << ((key_code % 8) as u8)) != 0 {
                let ghost before = pressed.deep_view();
                pressed.push(self.buttons[j].name.clone());
                assert(pressed.deep_view() == before.push(self.buttons@[j as int].name@));
            }
            j += 1;
        }
        assert(self.buttons@.take(self.buttons@.len() as int) == self.buttons@);
        self.pressed_buttons = pressed;
        proof {
            assert forall|m: int| #![trigger self.pressed()[m]] 0 <= m < self.pressed().len() implies exists|i: int|
                #![trigger self.buttons@[i]]
                0 <= i < self.buttons@.len() && self.buttons@[i].name@ == self.pressed()[m] by {
                lemma_pressed_names_are_names(self.buttons@, self.files@, m);
            }
            assert(names_of_buttons(self.pressed(), self.buttons()));
            lemma_pressed_names_distinct(self.buttons@, self.files@);
        }
    }

    /// Check if a button is pressed.
    pub fn get_button_state(&self, name: &str) -> (r: bool)
        ensures
            r == self.pressed().contains(name@),
    {
        let f = text::to_chars(name);
        let mut i: usize = 0;
        while i < self.pressed_buttons.len()
            invariant
                i <= self.pressed_buttons@.len(),
                f@ == name@,
                forall|k: int| 0 <= k < i ==> self.pressed()[k] != name@,
            decreases self.pressed_buttons.len() - i,
        {
            let g = text::to_chars(self.pressed_buttons[i].as_str());
            if text::chars_equal(&g, &f) {
                assert(self.pressed()[i as int] == name@);
                return true;
            }
            i += 1;
        }
        false
    }

    /// The names of the pressed buttons.
    pub fn get_pressed_buttons(&self) -> (r: Vec<String>)
        ensures
            r.deep_view() == self.pressed(),
    {
        let mut r: Vec<String> = Vec::new();
        let mut i: usize = 0;
        while i < self.pressed_buttons.len()
            invariant
                i <= self.pressed_buttons@.len(),
                r.deep_view() == self.pressed().take(i as int),
            decreases self.pressed_buttons.len() - i,
        {
            let ghost before = r.deep_view();
            let name = self.pressed_buttons[i].clone();
            r.push(name);
            assert(r.deep_view() == before.push(self.pressed_buttons@[i as int]@));
            assert(self.pressed()[i as int] == self.pressed_buttons@[i as int]@);
            assert(self.pressed().take(i + 1) == self.pressed().take(i as int).push(self.pressed()[i as int]));
            i += 1;
        }
        assert(self.pressed().take(self.pressed().len() as int) == self.pressed());
        r
    }

    /// The paths of the input devices, in the order in which `process` takes their buffers.
    pub fn file_names(&self) -> (r: Vec<String>)
        ensures
            r@.len() == self.files().len(),
            forall|i: int| 0 <= i < r@.len() ==> #[trigger] r@[i]@ == self.files()[i].file_name@,
    {
        let mut r: Vec<String> = Vec::new();
        let mut i: usize = 0;
        while i < self.files.len()
            invariant
                i <= self.files@.len(),
                r@.len() == i,
                forall|k: int| 0 <= k < i ==> #[trigger] r@[k]@ == self.files@[k].file_name@,
            decreases self.files.len() - i,
        {
            r.push(self.files[i].file_name.clone());
            i += 1;
        }
        r
    }
}

/// Adding an input device at the end does not move the first entry of any device already there.
proof fn lemma_file_index_prefix(before: Seq<FileMapEntry>, after: Seq<FileMapEntry>, name: Seq<char>)
    requires
        after.len() == before.len() + 1,
        after.drop_last() == before,
        file_index(before, name) < before.len(),
    ensures
        file_index(after, name) == file_index(before, name),
{
    lemma_file_index_bound(before, name);
    let i = file_index(before, name);
    assert forall|k: int| 0 <= k < i implies after[k].file_name@ != name by {
        assert(after[k] == before[k]);
    }
    assert(after[i] == before[i]);
    lemma_file_index_is_first(after, name, i);
}

proof fn lemma_button_index_is_first(buttons: Seq<ButtonMapEntry>, name: Seq<char>, i: int)
    requires
        0 <= i <= buttons.len(),
        forall|k: int| 0 <= k < i ==> buttons[k].name@ != name,
        i < buttons.len() ==> buttons[i].name@ == name,
    ensures
        button_index(buttons, name) == i,
    decreases i,
{
    if i > 0 {
        assert forall|k: int| 0 <= k < i - 1 implies buttons.drop_first()[k].name@ != name by {
            assert(buttons.drop_first()[k] == buttons[k + 1]);
        }
        if i < buttons.len() {
            assert(buttons.drop_first()[i - 1] == buttons[i]);
        }
        lemma_button_index_is_first(buttons.drop_first(), name, i - 1);
    }
}

proof fn lemma_file_index_is_first(files: Seq<FileMapEntry>, name: Seq<char>, i: int)
    requires
        0 <= i <= files.len(),
        forall|k: int| 0 <= k < i ==> files[k].file_name@ != name,
        i < files.len() ==> files[i].file_name@ == name,
    ensures
        file_index(files, name) == i,
    decreases i,
{
    if i > 0 {
        assert(files[0].file_name@ != name);
        assert forall|k: int| 0 <= k < i - 1 implies files.drop_first()[k].file_name@ != name by {
            assert(files.drop_first()[k] == files[k + 1]);
        }
        if i < files.len() {
            assert(files.drop_first()[i - 1] == files[i]);
        }
        lemma_file_index_is_first(files.drop_first(), name, i - 1);
    } else if files.len() > 0 {
        assert(files[0].file_name@ == name);
    }
}

/// The buttons of the EV3 brick: name and key code, all reported by `BUTTON_FILE`.
pub open spec fn ev3_buttons() -> Seq<(Seq<char>, u32)> {
    seq![
        ("up"@, 103u32),
        ("down"@, 108u32),
        ("left"@, 105u32),
        ("right"@, 106u32),
        ("enter"@, 28u32),
        ("backspace"@, 14u32),
    ]
}

/// `buttons` are the first `n` buttons of the brick, in order.
spec fn ev3_prefix(buttons: Seq<ButtonMapEntry>, n: int) -> bool {
    &&& buttons.len() == n
    &&& forall|j: int|
        0 <= j < n ==> is_button(#[trigger] buttons[j], ev3_buttons()[j].0, BUTTON_FILE@, ev3_buttons()[j].1)
}

/// The next button of the brick is not among the first `n`: the brick's buttons have distinct
/// names.
proof fn lemma_ev3_button_is_new(buttons: Seq<ButtonMapEntry>, n: int)
    requires
        0 <= n < ev3_buttons().len(),
        ev3_prefix(buttons, n),
    ensures
        button_index(buttons, ev3_buttons()[n].0) == n,
{
    reveal_strlit("up");
    reveal_strlit("down");
    reveal_strlit("left");
    reveal_strlit("right");
    reveal_strlit("enter");
    reveal_strlit("backspace");
    assert forall|j: int| 0 <= j < n implies buttons[j].name@ != ev3_buttons()[n].0 by {
        assert(is_button(buttons[j], ev3_buttons()[j].0, BUTTON_FILE@, ev3_buttons()[j].1));
        assert(buttons[j].name@[0] != ev3_buttons()[n].0[0]);
    }
    lemma_button_index_is_first(buttons, ev3_buttons()[n].0, n);
}

/// Adding the next button of the brick at the end extends the prefix by one.
proof fn lemma_ev3_buttons_extended(before: Seq<ButtonMapEntry>, after: Seq<ButtonMapEntry>, n: int)
    requires
        0 <= n < ev3_buttons().len(),
        ev3_prefix(before, n),
        after.len() == n + 1,
        is_button(after[n], ev3_buttons()[n].0, BUTTON_FILE@, ev3_buttons()[n].1),
        forall|k: int| 0 <= k < n ==> same_button(#[trigger] after[k], before[k]),
    ensures
        ev3_prefix(after, n + 1),
{
    assert forall|j: int| 0 <= j < n + 1 implies is_button(#[trigger] after[j], ev3_buttons()[j].0, BUTTON_FILE@, ev3_buttons()[j].1) by {
        if j < n {
            assert(same_button(after[j], before[j]));
            assert(is_button(before[j], ev3_buttons()[j].0, BUTTON_FILE@, ev3_buttons()[j].1));
        }
    }
}

/// Ev3 brick button handler.
#[derive(Debug)]
pub struct Ev3Button {
    button_handler: ButtonFileHandler,
}

impl Ev3Button {
    /// The handler of the brick's buttons.
    pub closed spec fn handler(&self) -> ButtonFileHandler {
        self.button_handler
    }

    /// Ev3 brick button handler for the six buttons of the brick, all reported by `BUTTON_FILE`,
    /// none of them pressed.
    pub fn new() -> (r: Self)
        ensures
            r.handler().well_formed(),
            r.handler().files().len() == 1,
            r.handler().files()[0].file_name@ == BUTTON_FILE@,
            r.handler().buttons().len() == ev3_buttons().len(),
            forall|i: int|
                0 <= i < ev3_buttons().len() ==> is_button(
                    #[trigger] r.handler().buttons()[i],
                    ev3_buttons()[i].0,
                    BUTTON_FILE@,
                    ev3_buttons()[i].1,
                ),
            keys_in_buffer(r.handler().buttons()),
            r.handler().pressed().len() == 0,
    {
        let mut handler = ButtonFileHandler::new();
        proof { lemma_ev3_button_is_new(handler.buttons(), 0); }
        let ghost before = handler.buttons();
        handler.add_button("up", BUTTON_FILE, 103);
        proof {
            lemma_ev3_buttons_extended(before, handler.buttons(), 0);
            lemma_ev3_button_is_new(handler.buttons(), 1);
        }
        let ghost before = handler.buttons();
        handler.add_button("down", BUTTON_FILE, 108);
        proof {
            lemma_ev3_buttons_extended(before, handler.buttons(), 1);
            lemma_ev3_button_is_new(handler.buttons(), 2);
        }
        let ghost before = handler.buttons();
        handler.add_button("left", BUTTON_FILE, 105);
        proof {
            lemma_ev3_buttons_extended(before, handler.buttons(), 2);
            lemma_ev3_button_is_new(handler.buttons(), 3);
        }
        let ghost before = handler.buttons();
        handler.add_button("right", BUTTON_FILE, 106);
        proof {
            lemma_ev3_buttons_extended(before, handler.buttons(), 3);
            lemma_ev3_button_is_new(handler.buttons(), 4);
        }
        let ghost before = handler.buttons();
        handler.add_button("enter", BUTTON_FILE, 28);
        proof {
            lemma_ev3_buttons_extended(before, handler.buttons(), 4);
            lemma_ev3_button_is_new(handler.buttons(), 5);
        }
        let ghost before = handler.buttons();
        handler.add_button("backspace", BUTTON_FILE, 14);
        proof {
            lemma_ev3_buttons_extended(before, handler.buttons(), 5);
        }
        Ev3Button { button_handler: handler }
    }

    /// The paths of the input devices, in the order in which `process` takes their buffers.
    pub fn file_names(&self) -> (r: Vec<String>)
        ensures
            r@.len() == self.handler().files().len(),
            forall|i: int| 0 <= i < r@.len() ==> #[trigger] r@[i]@ == self.handler().files()[i].file_name@,
    {
        self.button_handler.file_names()
    }

    /// Check for currently pressed buttons, from a poll of the key state of every input device
    /// (see `ButtonFileHandler::process`).
    pub fn process(&mut self, buffers: &[Option<Vec<u8>>])
        requires
            old(self).handler().well_formed(),
            keys_in_buffer(old(self).handler().buttons()),
            buffers@.len() == old(self).handler().files().len(),
            forall|i: int|
                0 <= i < buffers@.len() ==> (#[trigger] buffers@[i] matches Some(b) ==> b@.len()
                    == KEY_BUF_LEN),
        ensures
            final(self).handler().well_formed(),
            same_file_names(final(self).handler().files(), old(self).handler().files()),
            forall|i: int|
                0 <= i < final(self).handler().files().len() ==> #[trigger] final(self).handler().files()[i].buffer_cache@
                    == polled(old(self).handler().files(), buffers@, i),
            final(self).handler().buttons() == old(self).handler().buttons(),
            final(self).handler().pressed() == pressed_names(
                final(self).handler().buttons(),
                final(self).handler().files(),
            ),
            names_of_buttons(final(self).handler().pressed(), final(self).handler().buttons()),
            final(self).handler().pressed().no_duplicates(),
    {
        self.button_handler.process(buffers)
    }

    /// Get all pressed buttons by name.
    pub fn get_pressed_buttons(&self) -> (r: Vec<String>)
        ensures
            r.deep_view() == self.handler().pressed(),
    {
        self.button_handler.get_pressed_buttons()
    }

    /// Check if 'up' button is pressed.
    pub fn is_up(&self) -> (r: bool)
        ensures
            r == self.handler().pressed().contains("up"@),
    {
        self.button_handler.get_button_state("up")
    }

    /// Check if 'down' button is pressed.
    pub fn is_down(&self) -> (r: bool)
        ensures
            r == self.handler().pressed().contains("down"@),
    {
        self.button_handler.get_button_state("down")
    }

    /// Check if 'left' button is pressed.
    pub fn is_left(&self) -> (r: bool)
        ensures
            r == self.handler().pressed().contains("left"@),
    {
        self.button_handler.get_button_state("left")
    }

    /// Check if 'right' button is pressed.
    pub fn is_right(&self) -> (r: bool)
        ensures
            r == self.handler().pressed().contains("right"@),
    {
        self.button_handler.get_button_state("right")
    }

    /// Check if 'enter' button is pressed.
    pub fn is_enter(&self) -> (r: bool)
        ensures
            r == self.handler().pressed().contains("enter"@),
    {
        self.button_handler.get_button_state("enter")
    }

    /// Check if 'backspace' button is pressed.
    pub fn is_backspace(&self) -> (r: bool)
        ensures
            r == self.handler().pressed().contains("backspace"@),
    {
        self.button_handler.get_button_state("backspace")
    }
}

/// Every pressed button is one of the buttons: each name in the pressed list is the name of a
/// button.
pub proof fn lemma_pressed_names_are_names(bs: Seq<ButtonMapEntry>, fs: Seq<FileMapEntry>, m: int)
    requires
        0 <= m < pressed_names(bs, fs).len(),
    ensures
        exists|i: int| 0 <= i < bs.len() && #[trigger] bs[i].name@ == pressed_names(bs, fs)[m],
    decreases bs.len(),
{
    let t = bs.drop_last();
    let rest = pressed_names(t, fs);
    if m < rest.len() {
        lemma_pressed_names_are_names(t, fs, m);
        let i = choose|i: int| 0 <= i < t.len() && #[trigger] t[i].name@ == rest[m];
        assert(bs[i] == t[i]);
    } else {
        assert(bs[bs.len() - 1].name@ == pressed_names(bs, fs)[m]);
    }
}

/// Where the buttons have distinct names, no button is listed twice among the pressed ones.
pub proof fn lemma_pressed_names_distinct(bs: Seq<ButtonMapEntry>, fs: Seq<FileMapEntry>)
    requires
        distinct_button_names(bs),
    ensures
        pressed_names(bs, fs).no_duplicates(),
    decreases bs.len(),
{
    if bs.len() > 0 {
        let t = bs.drop_last();
        let rest = pressed_names(t, fs);
        let last = bs[bs.len() - 1];
        assert forall|i: int, j: int| 0 <= i < t.len() && 0 <= j < t.len() && i != j implies #[trigger] t[i].name@ != #[trigger] t[j].name@ by {
            assert(t[i] == bs[i]);
            assert(t[j] == bs[j]);
        }
        lemma_pressed_names_distinct(t, fs);
        if pressed_names(bs, fs) != rest {
            assert(pressed_names(bs, fs) == rest.push(last.name@));
            assert forall|m: int| 0 <= m < rest.len() implies rest[m] != last.name@ by {
                lemma_pressed_names_are_names(t, fs, m);
                let i = choose|i: int| 0 <= i < t.len() && #[trigger] t[i].name@ == rest[m];
                assert(t[i] == bs[i]);
                assert(bs[i].name@ != bs[bs.len() - 1].name@);
            }
            assert forall|i: int, j: int| 0 <= i < rest.len() + 1 && 0 <= j < rest.len() + 1 && i != j implies rest.push(last.name@)[i] != rest.push(last.name@)[j] by {
                if i < rest.len() && j < rest.len() {
                    assert(rest[i] != rest[j]);
                }
            }
        }
    }
}

/// Where the buttons have distinct names, a button is among the pressed ones exactly when its key
/// bit is set in the buffer of its input device.
pub proof fn lemma_pressed_names_contains(bs: Seq<ButtonMapEntry>, fs: Seq<FileMapEntry>, k: int)
    requires
        0 <= k < bs.len(),
        forall|i: int, j: int| 0 <= i < bs.len() && 0 <= j < bs.len() && i != j ==> #[trigger] bs[i].name@ != #[trigger] bs[j].name@,
    ensures
        pressed_names(bs, fs).contains(bs[k].name@) <==> key_bit_set(
            fs[file_index(fs, bs[k].file_name@)].buffer_cache@,
            bs[k].key_code,
        ),
    decreases bs.len(),
{
    let t = bs.drop_last();
    let rest = pressed_names(t, fs);
    let last = bs[bs.len() - 1];
    let bit = key_bit_set(fs[file_index(fs, last.file_name@)].buffer_cache@, last.key_code);
    if k == bs.len() - 1 {
        if rest.contains(last.name@) {
            let m = choose|m: int| 0 <= m < rest.len() && rest[m] == last.name@;
            lemma_pressed_names_are_names(t, fs, m);
            let i = choose|i: int| 0 <= i < t.len() && #[trigger] t[i].name@ == rest[m];
            assert(bs[i] == t[i]);
            assert(bs[i].name@ != bs[bs.len() - 1].name@);
        }
        if bit {
            assert(pressed_names(bs, fs) == rest.push(last.name@));
            assert(rest.push(last.name@)[rest.len() as int] == last.name@);
        }
    } else {
        assert(t[k] == bs[k]);
        assert forall|i: int, j: int| 0 <= i < t.len() && 0 <= j < t.len() && i != j implies #[trigger] t[i].name@ != #[trigger] t[j].name@ by {
            assert(t[i] == bs[i]);
            assert(t[j] == bs[j]);
        }
        lemma_pressed_names_contains(t, fs, k);
        assert(last.name@ != bs[k].name@);
        if bit {
            assert(pressed_names(bs, fs) == rest.push(last.name@));
            if rest.contains(bs[k].name@) {
                let m = choose|m: int| 0 <= m < rest.len() && rest[m] == bs[k].name@;
                assert(rest.push(last.name@)[m] == bs[k].name@);
            }
            if rest.push(last.name@).contains(bs[k].name@) {
                let m = choose|m: int| 0 <= m < rest.len() + 1 && rest.push(last.name@)[m] == bs[k].name@;
                assert(m < rest.len());
                assert(rest[m] == bs[k].name@);
            }
        }
    }
}

/// On the brick, after a poll of the buttons' input device, a button counts as pressed exactly
/// when its key bit is set in the buffer that the poll gave.
pub proof fn lemma_ev3_button_pressed(b: Ev3Button, k: int)
    requires
        b.handler().well_formed(),
        b.handler().files().len() == 1,
        b.handler().files()[0].file_name@ == BUTTON_FILE@,
        b.handler().buttons().len() == ev3_buttons().len(),
        forall|i: int|
            0 <= i < ev3_buttons().len() ==> is_button(
                #[trigger] b.handler().buttons()[i],
                ev3_buttons()[i].0,
                BUTTON_FILE@,
                ev3_buttons()[i].1,
            ),
        b.handler().pressed() == pressed_names(b.handler().buttons(), b.handler().files()),
        0 <= k < ev3_buttons().len(),
    ensures
        b.handler().pressed().contains(ev3_buttons()[k].0) <==> key_bit_set(
            b.handler().files()[0].buffer_cache@,
            ev3_buttons()[k].1,
        ),
{
    reveal_strlit("up");
    reveal_strlit("down");
    reveal_strlit("left");
    reveal_strlit("right");
    reveal_strlit("enter");
    reveal_strlit("backspace");
    let bs = b.handler().buttons();
    let fs = b.handler().files();
    assert forall|i: int, j: int| 0 <= i < bs.len() && 0 <= j < bs.len() && i != j implies #[trigger] bs[i].name@ != #[trigger] bs[j].name@ by {
        assert(is_button(bs[i], ev3_buttons()[i].0, BUTTON_FILE@, ev3_buttons()[i].1));
        assert(is_button(bs[j], ev3_buttons()[j].0, BUTTON_FILE@, ev3_buttons()[j].1));
        assert(bs[i].name@[0] != bs[j].name@[0]);
    }
    assert(is_button(bs[k], ev3_buttons()[k].0, BUTTON_FILE@, ev3_buttons()[k].1));
    lemma_file_index_is_first(fs, BUTTON_FILE@, 0);
    lemma_pressed_names_contains(bs, fs, k);
}

/// The brick's buttons answer to the Linux input key codes: `up` is `KEY_UP` (103), `down` is
/// `KEY_DOWN` (108), `left` is `KEY_LEFT` (105), `right` is `KEY_RIGHT` (106), `enter` is
/// `KEY_ENTER` (28) and `backspace` is `KEY_BACKSPACE` (14). After a poll of the buttons' input
/// device, each button counts as pressed exactly when the bit of its key code is set in the buffer
/// that the poll gave.
pub proof fn lemma_ev3_button_key_codes(b: Ev3Button)
    requires
        b.handler().well_formed(),
        b.handler().files().len() == 1,
        b.handler().files()[0].file_name@ == BUTTON_FILE@,
        b.handler().buttons().len() == ev3_buttons().len(),
        forall|i: int|
            0 <= i < ev3_buttons().len() ==> is_button(
                #[trigger] b.handler().buttons()[i],
                ev3_buttons()[i].0,
                BUTTON_FILE@,
                ev3_buttons()[i].1,
            ),
        b.handler().pressed() == pressed_names(b.handler().buttons(), b.handler().files()),
    ensures
        b.handler().pressed().contains(seq!['u', 'p']) <==> key_bit_set(b.handler().files()[0].buffer_cache@, 103),
        b.handler().pressed().contains(seq!['d', 'o', 'w', 'n']) <==> key_bit_set(b.handler().files()[0].buffer_cache@, 108),
        b.handler().pressed().contains(seq!['l', 'e', 'f', 't']) <==> key_bit_set(b.handler().files()[0].buffer_cache@, 105),
        b.handler().pressed().contains(seq!['r', 'i', 'g', 'h', 't']) <==> key_bit_set(b.handler().files()[0].buffer_cache@, 106),
        b.handler().pressed().contains(seq!['e', 'n', 't', 'e', 'r']) <==> key_bit_set(b.handler().files()[0].buffer_cache@, 28),
        b.handler().pressed().contains(seq!['b', 'a', 'c', 'k', 's', 'p', 'a', 'c', 'e']) <==> key_bit_set(
            b.handler().files()[0].buffer_cache@,
            14,
        ),
{
    reveal_strlit("up");
    reveal_strlit("down");
    reveal_strlit("left");
    reveal_strlit("right");
    reveal_strlit("enter");
    reveal_strlit("backspace");
    assert("up"@ =~= seq!['u', 'p']);
    assert("down"@ =~= seq!['d', 'o', 'w', 'n']);
    assert("left"@ =~= seq!['l', 'e', 'f', 't']);
    assert("right"@ =~= seq!['r', 'i', 'g', 'h', 't']);
    assert("enter"@ =~= seq!['e', 'n', 't', 'e', 'r']);
    assert("backspace"@ =~= seq!['b', 'a', 'c', 'k', 's', 'p', 'a', 'c', 'e']);
    lemma_ev3_button_pressed(b, 0);
    lemma_ev3_button_pressed(b, 1);
    lemma_ev3_button_pressed(b, 2);
    lemma_ev3_button_pressed(b, 3);
    lemma_ev3_button_pressed(b, 4);
    lemma_ev3_button_pressed(b, 5);
}

} // verus!
