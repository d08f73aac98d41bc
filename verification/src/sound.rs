//! Sound: the arguments of the `beep` calls that play tones, the mixer channels and volume read
//! from the output of `amixer`, and the `amixer` arguments that set or get the volume.
use vstd::prelude::*;
use crate::attribute::push_str;
use crate::error::{self, Ev3Error, Ev3Result};
use crate::number;
use crate::text;

verus! {

/// `prefix` followed by `rest`, as a new string.
fn prefixed(prefix: &str, rest: &str) -> (r: String)
    ensures
        r@ == prefix@ + rest@,
{
    let mut r = prefix.to_owned();
    push_str(&mut r, rest);
    r
}

/// The `beep` arguments of one tone: its frequency (the text of a number of Hz) and its duration
/// in milliseconds.
pub open spec fn tone_args(frequency: Seq<char>, duration: i32) -> Seq<Seq<char>> {
    seq!["-f "@ + frequency, "-l "@ + number::int_text(duration as int)]
}

/// The `beep` arguments of one tone of a sequence: frequency text, duration, and the delay in
/// milliseconds before the next tone.
pub open spec fn tone_group(tone: (String, i32, i32)) -> Seq<Seq<char>> {
    seq![
        "-f "@ + tone.0@,
        "-l "@ + number::int_text(tone.1 as int),
        "-D "@ + number::int_text(tone.2 as int),
    ]
}

/// The `beep` arguments of a tone sequence: the arguments of each tone, with `-n` between two
/// tones.
pub open spec fn tone_sequence_args(tones: Seq<(String, i32, i32)>) -> Seq<Seq<char>>
    decreases tones.len(),
{
    if tones.len() == 0 {
        Seq::empty()
    } else if tones.len() == 1 {
        tone_group(tones[0])
    } else {
        tone_sequence_args(tones.drop_last()) + seq!["-n"@] + tone_group(tones.last())
    }
}

/// The arguments of the `beep` call that plays a tone of `frequency` Hz (the text of the
/// number) for `duration` milliseconds: `-f <frequency>` and `-l <duration>`.
pub fn tone(frequency: &str, duration: i32) -> (r: Vec<String>)
    ensures
        r.deep_view() == tone_args(frequency@, duration),
{
    let mut r: Vec<String> = Vec::new();
    r.push(prefixed("-f ", frequency));
    r.push(prefixed("-l ", number::format_i32(duration).as_str()));
    assert(r.deep_view() =~= tone_args(frequency@, duration));
    r
}

fn push_tone_group(r: &mut Vec<String>, tone: &(String, i32, i32))
    ensures
        final(r).deep_view() == old(r).deep_view() + tone_group(*tone),
{
    let ghost before = r.deep_view();
    r.push(prefixed("-f ", tone.0.as_str()));
    r.push(prefixed("-l ", number::format_i32(tone.1).as_str()));
    r.push(prefixed("-D ", number::format_i32(tone.2).as_str()));
    assert(r.deep_view() =~= before + tone_group(*tone));
}

/// The arguments of the `beep` call that plays the tone sequence `sequence`, each tone given by
/// its frequency (the text of a number of Hz), its duration and the delay in milliseconds
/// between this and the next tone: `-f <frequency> -l <duration> -D <delay>` for each tone,
/// with `-n` between two tones.
pub fn tone_sequence(sequence: &[(String, i32, i32)]) -> (r: Vec<String>)
    ensures
        r.deep_view() == tone_sequence_args(sequence@),
{
    let mut r: Vec<String> = Vec::new();
    let mut i: usize = 0;
    assert(sequence@.take(0) =~= Seq::<(String, i32, i32)>::empty());
    while i < sequence.len()
        invariant
            i <= sequence@.len(),
            r.deep_view() == tone_sequence_args(sequence@.take(i as int)),
        decreases sequence.len() - i,
    {
        let ghost prefix = sequence@.take(i + 1);
        assert(prefix.drop_last() =~= sequence@.take(i as int));
        assert(prefix.last() == sequence@[i as int]);
        if i > 0 {
            let ghost before = r.deep_view();
            r.push("-n".to_owned());
            assert(r.deep_view() =~= before + seq!["-n"@]);
        } else {
            assert(r.deep_view() =~= Seq::<Seq<char>>::empty());
        }
        push_tone_group(&mut r, &sequence[i]);
        if i == 0 {
            assert(r.deep_view() =~= tone_group(sequence@[0]));
        }
        i += 1;
    }
    assert(sequence@.take(sequence@.len() as int) =~= sequence@);
    r
}

/// Splitting `s` at line feeds, scanning from the left: the lines completed so far,
/// and the line being read.
pub open spec fn line_state(s: Seq<char>) -> (Seq<Seq<char>>, Seq<char>)
    decreases s.len(),
{
    if s.len() == 0 {
        (seq![], seq![])
    } else {
        let (done, cur) = line_state(s.drop_last());
        if s.last() == '\n' {
            (done.push(cur), seq![])
        } else {
            (done, cur.push(s.last()))
        }
    }
}

/// The pieces of `s` between line feeds, as `str::split('\n')` gives them.
pub open spec fn lines(s: Seq<char>) -> Seq<Seq<char>> {
    let (done, cur) = line_state(s);
    done.push(cur)
}

/// The channel named on a line of `amixer scontrols`: the text between the first and the
/// last `'`, where that text is not empty.
pub open spec fn channel_of(line: Seq<char>) -> Option<Seq<char>> {
    let start = match text::first_occurrence(line, seq!['\'']) {
        Some(i) => i + 1,
        None => 1,
    };
    let end = match text::last_occurrence(line, seq!['\'']) {
        Some(i) => i,
        None => 1,
    };
    if start >= end {
        None
    } else {
        Some(line.subrange(start, end))
    }
}

/// The channels named on the lines `ls`, in order.
pub open spec fn channels_in(ls: Seq<Seq<char>>) -> Seq<Seq<char>>
    decreases ls.len(),
{
    if ls.len() == 0 {
        seq![]
    } else {
        let rest = channels_in(ls.drop_last());
        match channel_of(ls.last()) {
            Some(c) => rest.push(c),
            None => rest,
        }
    }
}

/// The channels named in the output `out` of `amixer scontrols`, or `Playback` if it names none.
pub open spec fn channels_spec(out: Seq<char>) -> Seq<Seq<char>> {
    let cs = channels_in(lines(out));
    if cs.len() == 0 {
        seq!["Playback"@]
    } else {
        cs
    }
}

fn channel_of_line(line: &Vec<char>) -> (r: Option<String>)
    ensures
        match channel_of(line@) {
            Some(c) => r matches Some(s) && s@ == c,
            None => r is None,
        },
{
    let quote: Vec<char> = vec!['\''];
    assert(quote@ == seq!['\'']);
    let start = match text::find_seq(line, &quote) {
        Some(i) => {
            assert(text::is_first_occurrence(line@, quote@, i as int));
            assert(i + 1 <= line.len());
            i + 1
        },
        None => 1,
    };
    let end = match text::rfind_seq(line, &quote) {
        Some(i) => i,
        None => 1,
    };
    if start >= end {
        None
    } else {
        Some(text::from_chars(line, start, end))
    }
}

/// The main channel names in the output `scontrols_output` of `amixer scontrols`:
/// the text between the first and the last `'` of each line, where not empty,
/// or `Playback` if no line names a channel. The list is never empty.
pub fn get_channels(scontrols_output: &str) -> (r: Vec<String>)
    ensures
        r.deep_view() == channels_spec(scontrols_output@),
        r@.len() >= 1,
{
    let v = text::to_chars(scontrols_output);
    let mut channels: Vec<String> = Vec::new();
    let mut cur: Vec<char> = Vec::new();
    let mut i: usize = 0;
    while i < v.len()
        invariant
            i <= v@.len(),
            v@ == scontrols_output@,
            line_state(v@.take(i as int)).1 == cur@,
            channels_in(line_state(v@.take(i as int)).0) == channels.deep_view(),
        decreases v.len() - i,
    {
        assert(v@.take(i + 1).drop_last() == v@.take(i as int));
        assert(v@.take(i + 1).last() == v@[i as int]);
        if v[i] == '\n' {
            let ghost done = line_state(v@.take(i as int)).0;
            assert(done.push(cur@).drop_last() == done);
            let c = channel_of_line(&cur);
            if let Some(name) = c {
                let ghost before = channels.deep_view();
                channels.push(name);
                assert(channels.deep_view() == before.push(name@));
            }
            cur = Vec::new();
        } else {
            cur.push(v[i]);
        }
        i += 1;
    }
    assert(v@.take(v@.len() as int) == v@);
    let ghost done = line_state(v@).0;
    assert(done.push(cur@).drop_last() == done);
    let c = channel_of_line(&cur);
    if let Some(name) = c {
        let ghost before = channels.deep_view();
        channels.push(name);
        assert(channels.deep_view() == before.push(name@));
    }
    if channels.len() == 0 {
        channels.push("Playback".to_owned());
        assert(channels.deep_view() == seq!["Playback"@]);
    }
    channels
}

/// The arguments of the `amixer` call that sets the volume of `channel` to `volume` percent:
/// `-q set <channel> <volume>%`.
pub fn set_volume_channel(volume: i32, channel: &str) -> (r: Vec<String>)
    ensures
        r.deep_view() == seq!["-q"@, "set"@, channel@, number::int_text(volume as int) + "%"@],
{
    let mut pct = number::format_i32(volume);
    crate::attribute::push_str(&mut pct, "%");
    let mut r: Vec<String> = Vec::new();
    r.push("-q".to_owned());
    r.push("set".to_owned());
    r.push(channel.to_owned());
    r.push(pct);
    assert(r.deep_view() =~= seq!["-q"@, "set"@, channel@, number::int_text(volume as int) + "%"@]);
    r
}

/// The channels to use after running `amixer scontrols`: those that `get_channels` finds in its
/// output, or `Playback` where the run failed.
pub open spec fn run_channels_spec(scontrols: Ev3Result<String>) -> Seq<Seq<char>> {
    match scontrols {
        Ok(out) => channels_spec(out@),
        Err(_) => seq!["Playback"@],
    }
}

/// The channels to use after running `amixer scontrols`, whose outcome is `scontrols`.
/// The list is never empty.
fn run_channels(scontrols: &Ev3Result<String>) -> (r: Vec<String>)
    ensures
        r.deep_view() == run_channels_spec(*scontrols),
        r@.len() >= 1,
{
    match scontrols {
        Ok(out) => get_channels(out.as_str()),
        Err(_) => {
            let mut r: Vec<String> = Vec::new();
            r.push("Playback".to_owned());
            assert(r.deep_view() =~= seq!["Playback"@]);
            r
        },
    }
}

/// The arguments of the `amixer` calls that set the sound volume to `volume` percent, one call
/// for each channel in order: the channels that `get_channels` finds in the output of
/// `amixer scontrols`, whose outcome is `scontrols`, or `Playback` where that run failed.
pub fn set_volume(volume: i32, scontrols: &Ev3Result<String>) -> (r: Vec<Vec<String>>)
    ensures
        r@.len() == run_channels_spec(*scontrols).len(),
        forall|i: int|
            0 <= i < r@.len() ==> #[trigger] r@[i].deep_view() == seq![
                "-q"@,
                "set"@,
                run_channels_spec(*scontrols)[i],
                number::int_text(volume as int) + "%"@,
            ],
{
    let channels = run_channels(scontrols);
    let mut r: Vec<Vec<String>> = Vec::new();
    let mut i: usize = 0;
    while i < channels.len()
        invariant
            i <= channels@.len(),
            r@.len() == i,
            channels.deep_view() == run_channels_spec(*scontrols),
            forall|k: int|
                0 <= k < i ==> #[trigger] r@[k].deep_view() == seq![
                    "-q"@,
                    "set"@,
                    run_channels_spec(*scontrols)[k],
                    number::int_text(volume as int) + "%"@,
                ],
        decreases channels.len() - i,
    {
        assert(channels.deep_view()[i as int] == channels@[i as int]@);
        r.push(set_volume_channel(volume, channels[i].as_str()));
        i += 1;
    }
    r
}

/// The arguments of the `amixer` call that gets the volume of the main channel: `get` and the
/// first channel that `get_channels` finds in the output of `amixer scontrols`, whose outcome is
/// `scontrols`, or `Playback` where that run failed.
pub fn get_volume(scontrols: &Ev3Result<String>) -> (r: Vec<String>)
    ensures
        r.deep_view() == seq!["get"@, run_channels_spec(*scontrols)[0]],
{
    let channels = run_channels(scontrols);
    let mut r: Vec<String> = Vec::new();
    r.push("get".to_owned());
    r.push(channels[0].clone());
    assert(channels.deep_view()[0] == channels@[0]@);
    assert(r.deep_view() =~= seq!["get"@, run_channels_spec(*scontrols)[0]]);
    r
}

/// Where the volume stands in the output `out` of `amixer get`: after the first `[`, up to the
/// first `%]`; index 1 where a marker is missing.
pub open spec fn volume_bounds(out: Seq<char>) -> (int, int) {
    let start = match text::first_occurrence(out, seq!['[']) {
        Some(i) => i + 1,
        None => 1,
    };
    let end = match text::first_occurrence(out, seq!['%', ']']) {
        Some(i) => i,
        None => 1,
    };
    (start, end)
}

/// The volume can be cut out of `out`: the bounds are in order and in the text, and where a
/// marker is missing the text starts with a one-byte character, so that index 1 falls between
/// characters.
pub open spec fn volume_text_ok(out: Seq<char>) -> bool {
    let (start, end) = volume_bounds(out);
    &&& start <= end <= out.len()
    &&& (text::first_occurrence(out, seq!['[']) is None || text::first_occurrence(out, seq!['%', ']']) is None) ==> (out.len() >= 1 && out[0] < '\u{80}')
}

/// The volume in the output `out` of `amixer get`, or the error of reading it as an `i32`.
pub open spec fn volume_spec(out: Seq<char>) -> Result<i32, error::ErrorView> {
    let (start, end) = volume_bounds(out);
    match number::parse_i32_spec(out.subrange(start, end)) {
        Ok(v) => Ok(v as i32),
        Err(k) => Err(error::ErrorView::InternalError(error::int_error_text(k))),
    }
}

fn volume_bounds_exec(v: &Vec<char>) -> (r: (usize, usize))
    ensures
        r.0 as int == volume_bounds(v@).0,
        r.1 as int == volume_bounds(v@).1,
        r.0 >= 1,
{
    let open: Vec<char> = vec!['['];
    let close: Vec<char> = vec!['%', ']'];
    assert(open@ == seq!['[']);
    assert(close@ == seq!['%', ']']);
    let start = match text::find_seq(v, &open) {
        Some(i) => {
            assert(text::is_first_occurrence(v@, open@, i as int));
            assert(i + 1 <= v.len());
            i + 1
        },
        None => 1,
    };
    let end = match text::find_seq(v, &close) {
        Some(i) => i,
        None => 1,
    };
    (start, end)
}

/// Whether the volume can be cut out of the output `out` of `amixer get`
/// (`get_volume_channel` asks for it).
pub fn volume_text_parsable(out: &str) -> (r: bool)
    ensures
        r == volume_text_ok(out@),
{
    let v = text::to_chars(out);
    let (start, end) = volume_bounds_exec(&v);
    let open: Vec<char> = vec!['['];
    let close: Vec<char> = vec!['%', ']'];
    assert(open@ == seq!['[']);
    assert(close@ == seq!['%', ']']);
    let marker_missing = text::find_seq(&v, &open).is_none() || text::find_seq(&v, &close).is_none();
    start <= end && end <= v.len() && (!marker_missing || (v.len() >= 1 && v[0] < '\u{80}'))
}

/// Gets the current sound volume from the output `out` of `amixer get <channel>`:
/// the number between the first `[` and the first `%]`.
pub fn get_volume_channel(out: &str) -> (r: Ev3Result<i32>)
    requires
        volume_text_ok(out@),
    ensures
        error::outcome(r) == volume_spec(out@),
{
    let v = text::to_chars(out);
    let (start, end) = volume_bounds_exec(&v);
    let mut digits: Vec<char> = Vec::new();
    let mut i: usize = start;
    while i < end
        invariant
            start <= i <= end <= v@.len(),
            digits@ == v@.subrange(start as int, i as int),
        decreases end - i,
    {
        digits.push(v[i]);
        i += 1;
        assert(v@.subrange(start as int, i as int) == v@.subrange(start as int, i - 1).push(v@[i - 1]));
    }
    match number::parse_i32(&digits) {
        Ok(vol) => Ok(vol),
        Err(k) => Err(error::int_error(k)),
    }
}

} // verus!
