//! The filesystem watch source, reduced to its decision rule: which raw
//! notifications count, and what event a qualifying notification turns
//! into. Only a close-after-write notification emits an event; the file
//! content is re-read then, and a content that cannot be read or parsed
//! is swallowed — the next notification re-reads current content, so a
//! lost tick is never fatal.

use vstd::prelude::*;

verus! {

/// The facet a watched file feeds, used as the multiplexer tag and as the
/// reducer dispatch key.
#[derive(Clone, Copy, PartialEq, Eq, Structural, Hash, Debug)]
pub enum SystemEventKind {
    Brightness,
}

/// The shape of a raw filesystem notification, reduced to the one
/// distinction the source acts on.
#[derive(Clone, Copy, PartialEq, Eq, Structural, Debug)]
pub enum WatchNotification {
    /// The file was closed after being opened for writing: its content is
    /// stable and safe to re-read.
    CloseWrite,
    /// Any other notification kind: a rename, an open, a read.
    Other,
}

/// One atomic change to the hardware state.
#[derive(Clone, Copy, PartialEq, Eq, Structural, Debug)]
pub enum SystemEvent {
    BrightnessChanged { new_brightness: u16 },
}

/// Whether the character counts as surrounding whitespace in an
/// attribute file.
pub open spec fn is_space(c: char) -> bool {
    c == ' ' || c == '\n' || c == '\t' || c == '\r'
}

/// The first index at or after `i` holding a non-whitespace character.
pub open spec fn sp_skip_ws(s: Seq<char>, i: int) -> int
    decreases s.len() - i,
{
    if 0 <= i < s.len() && is_space(s[i]) {
        sp_skip_ws(s, i + 1)
    } else {
        i
    }
}

/// One past the last non-whitespace character before `j`.
pub open spec fn sp_rskip_ws(s: Seq<char>, j: int) -> int
    decreases j,
{
    if 0 < j <= s.len() && is_space(s[j - 1]) {
        sp_rskip_ws(s, j - 1)
    } else {
        j
    }
}

/// Reads digits between `i` and `end`, failing on a non-digit or when
/// the value leaves the `u16` range.
pub open spec fn sp_u16_digits(s: Seq<char>, i: int, end: int, acc: u16) -> Option<u16>
    decreases end - i,
{
    if i >= end {
        Some(acc)
    } else if !crate::json::is_digit(s[i]) {
        None
    } else if 10 * acc + crate::json::digit_val(s[i]) > u16::MAX {
        None
    } else {
        sp_u16_digits(s, i + 1, end, (10 * acc + crate::json::digit_val(s[i])) as u16)
    }
}

/// The value of an attribute file: one decimal number surrounded by
/// whitespace, as `content.trim()` followed by a `u16` parse reads it.
pub open spec fn sp_parse_u16(s: Seq<char>) -> Option<u16> {
    let a = sp_skip_ws(s, 0);
    let b = sp_rskip_ws(s, s.len() as int);
    if a >= b {
        None
    } else {
        sp_u16_digits(s, a, b, 0)
    }
}

/// The right trim never runs backwards past zero.
proof fn lemma_rskip_ws_le(s: Seq<char>, j: int)
    requires
        0 <= j <= s.len(),
    ensures
        0 <= sp_rskip_ws(s, j) <= j,
    decreases j,
{
    if 0 < j && is_space(s[j - 1]) {
        lemma_rskip_ws_le(s, j - 1);
    }
}

/// Parses the content of an attribute file as a `u16`.
pub fn parse_u16_content(s: &Vec<char>) -> (r: Option<u16>)
    ensures
        r == sp_parse_u16(s@),
{
    let mut a: usize = 0;
    while a < s.len() && (s[a] == ' ' || s[a] == '\n' || s[a] == '\t' || s[a] == '\r')
        invariant
            0 <= a <= s@.len(),
            s.len() == s@.len(),
            sp_skip_ws(s@, 0) == sp_skip_ws(s@, a as int),
        decreases s@.len() - a,
    {
        a += 1;
    }
    let mut b: usize = s.len();
    while b > a && (s[b - 1] == ' ' || s[b - 1] == '\n' || s[b - 1] == '\t' || s[b - 1] == '\r')
        invariant
            a <= b <= s@.len(),
            s.len() == s@.len(),
            a == sp_skip_ws(s@, 0),
            a == s@.len() || !is_space(s@[a as int]),
            sp_rskip_ws(s@, s@.len() as int) == sp_rskip_ws(s@, b as int),
        decreases b,
    {
        b -= 1;
    }
    proof {
        assert(sp_skip_ws(s@, a as int) == a);
        lemma_rskip_ws_le(s@, b as int);
        if b > a {
            assert(!is_space(s@[b - 1]));
            assert(sp_rskip_ws(s@, b as int) == b);
        }
    }
    if a >= b {
        return None;
    }
    let mut acc: u16 = 0;
    let mut i: usize = a;
    while i < b
        invariant
            a <= i <= b <= s@.len(),
            s.len() == s@.len(),
            a as int == sp_skip_ws(s@, 0),
            b as int == sp_rskip_ws(s@, s@.len() as int),
            a < b,
            sp_u16_digits(s@, a as int, b as int, 0) == sp_u16_digits(s@, i as int, b as int, acc),
        decreases b - i,
    {
        let c = s[i];
        let cu = c as u32;
        if !(48 <= cu && cu <= 57) {
            return None;
        }
        let d = (cu - 48) as u16;
        if acc > (u16::MAX - d) / 10 {
            proof {
                assert(10 * acc + crate::json::digit_val(s@[i as int]) > u16::MAX);
            }
            return None;
        }
        proof {
            assert(10 * ((u16::MAX - d) / 10) <= u16::MAX - d);
        }
        acc = 10 * acc + d;
        i += 1;
    }
    Some(acc)
}

/// The event, if any, that one watch tick emits: a notification other
/// than close-after-write emits nothing; a close-after-write emits one
/// event carrying the value read from the file at that moment, and emits
/// nothing when the content could not be read or parsed.
pub open spec fn spec_watch_event(
    kind: SystemEventKind,
    n: WatchNotification,
    content: Option<Seq<char>>,
) -> Option<SystemEvent> {
    match n {
        WatchNotification::Other => None,
        WatchNotification::CloseWrite => match content {
            None => None,
            Some(c) => match sp_parse_u16(c) {
                None => None,
                Some(v) => match kind {
                    SystemEventKind::Brightness => Some(
                        SystemEvent::BrightnessChanged { new_brightness: v },
                    ),
                },
            },
        },
    }
}

/// Decides one watch tick: the debouncing rule of the watch source.
pub fn watch_event(kind: SystemEventKind, n: WatchNotification, content: Option<&Vec<char>>) -> (r:
    Option<SystemEvent>)
    ensures
        r == spec_watch_event(
            kind,
            n,
            match content {
                Some(c) => Some(c@),
                None => None,
            },
        ),
{
    match n {
        WatchNotification::Other => None,
        WatchNotification::CloseWrite => match content {
            None => None,
            Some(c) => match parse_u16_content(c) {
                None => None,
                Some(v) => match kind {
                    SystemEventKind::Brightness => Some(
                        SystemEvent::BrightnessChanged { new_brightness: v },
                    ),
                },
            },
        },
    }
}

/// The events a sequence of watch ticks emits, in order.
pub open spec fn spec_emitted(
    kind: SystemEventKind,
    ticks: Seq<(WatchNotification, Option<Seq<char>>)>,
) -> Seq<SystemEvent>
    decreases ticks.len(),
{
    if ticks.len() == 0 {
        Seq::empty()
    } else {
        (match spec_watch_event(kind, ticks[0].0, ticks[0].1) {
            Some(e) => seq![e],
            None => Seq::empty(),
        }) + spec_emitted(kind, ticks.skip(1))
    }
}

/// A burst of notifications none of which is a close-after-write emits no
/// event at all.
pub proof fn lemma_burst_emits_nothing(
    kind: SystemEventKind,
    ticks: Seq<(WatchNotification, Option<Seq<char>>)>,
)
    requires
        forall|i: int| 0 <= i < ticks.len() ==> (#[trigger] ticks[i]).0 != WatchNotification::CloseWrite,
    ensures
        spec_emitted(kind, ticks).len() == 0,
    decreases ticks.len(),
{
    if ticks.len() > 0 {
        assert(ticks[0].0 == WatchNotification::Other);
        assert forall|i: int| 0 <= i < ticks.skip(1).len() implies (#[trigger] ticks.skip(1)[i]).0
            != WatchNotification::CloseWrite by {
            assert(ticks.skip(1)[i] == ticks[i + 1]);
        }
        lemma_burst_emits_nothing(kind, ticks.skip(1));
    }
}

/// A sequence of ticks holding exactly one close-after-write, whose
/// content was read and parses, emits exactly one event, and that event
/// reflects the content read at that moment.
pub proof fn lemma_single_close_write(
    kind: SystemEventKind,
    ticks: Seq<(WatchNotification, Option<Seq<char>>)>,
    k: int,
    c: Seq<char>,
    v: u16,
)
    requires
        0 <= k < ticks.len(),
        ticks[k].0 == WatchNotification::CloseWrite,
        ticks[k].1 == Some(c),
        sp_parse_u16(c) == Some(v),
        forall|i: int|
            0 <= i < ticks.len() && i != k ==> (#[trigger] ticks[i]).0
                != WatchNotification::CloseWrite,
        kind == SystemEventKind::Brightness,
    ensures
        spec_emitted(kind, ticks) == seq![(SystemEvent::BrightnessChanged { new_brightness: v })],
    decreases ticks.len(),
{
    assert forall|i: int| 0 <= i < ticks.skip(1).len() && i != k - 1 implies (#[trigger] ticks.skip(
        1,
    )[i]).0 != WatchNotification::CloseWrite by {
        assert(ticks.skip(1)[i] == ticks[i + 1]);
    }
    if k == 0 {
        assert(spec_watch_event(kind, ticks[0].0, ticks[0].1) == Some(
            SystemEvent::BrightnessChanged { new_brightness: v },
        ));
        assert forall|i: int| 0 <= i < ticks.skip(1).len() implies (#[trigger] ticks.skip(1)[i]).0
            != WatchNotification::CloseWrite by {
            assert(ticks.skip(1)[i] == ticks[i + 1]);
        }
        lemma_burst_emits_nothing(kind, ticks.skip(1));
        assert(spec_emitted(kind, ticks) =~= seq![
            SystemEvent::BrightnessChanged { new_brightness: v },
        ]);
    } else {
        assert(ticks[0].0 == WatchNotification::Other);
        assert(ticks.skip(1)[k - 1] == ticks[k]);
        lemma_single_close_write(kind, ticks.skip(1), k - 1, c, v);
        assert(spec_emitted(kind, ticks) =~= seq![
            SystemEvent::BrightnessChanged { new_brightness: v },
        ]);
    }
}

} // verus!
