//! Notification decisions: which event records are delivered, and the
//! title text of a record. Formatting the payload and sending it over
//! the network happen outside the library.

use vstd::prelude::*;

use crate::config::WebhookConfig;
use crate::config::WebhookEvents;
use crate::text::push_char;

verus! {

/// The kinds of semantic event record the core produces.
#[derive(Clone, Copy, Debug, PartialEq, Eq)]
pub enum EventKind {
    /// A listing was bought.
    Purchase,
    /// A stack was re-listed.
    Listing,
    /// A listed stack was sold.
    Sale,
    /// The idle-teleport fired.
    Afk,
    /// A failure was reported.
    Error,
    /// The system came up.
    Startup,
    /// Progress of the idle activity; always delivered.
    Shards,
}

/// Whether the settings enable delivery of `k`.
pub open spec fn event_enabled_spec(ev: WebhookEvents, k: EventKind) -> bool {
    match k {
        EventKind::Purchase => ev.purchase,
        EventKind::Listing => ev.listing,
        EventKind::Sale => ev.sale,
        EventKind::Afk => ev.afk,
        EventKind::Error => ev.error,
        EventKind::Startup => ev.startup,
        EventKind::Shards => true,
    }
}

/// Decides whether the settings enable delivery of an event kind.
pub fn event_enabled(events: &WebhookEvents, kind: &EventKind) -> (b: bool)
    ensures
        b == event_enabled_spec(*events, *kind),
{
    match kind {
        EventKind::Purchase => events.purchase,
        EventKind::Listing => events.listing,
        EventKind::Sale => events.sale,
        EventKind::Afk => events.afk,
        EventKind::Error => events.error,
        EventKind::Startup => events.startup,
        EventKind::Shards => true,
    }
}

/// Whether a record of kind `k` is to be delivered at all: delivery is
/// on, an endpoint is set, and the kind is enabled.
pub open spec fn should_send_spec(cfg: WebhookConfig, k: EventKind) -> bool {
    cfg.enabled && cfg.url@.len() > 0 && event_enabled_spec(cfg.events, k)
}

/// Decides whether a record of the given kind is to be delivered.
pub fn should_send(cfg: &WebhookConfig, kind: &EventKind) -> (b: bool)
    ensures
        b == should_send_spec(*cfg, *kind),
{
    if !cfg.enabled {
        return false;
    }
    if cfg.url.as_str().is_empty() {
        return false;
    }
    event_enabled(&cfg.events, kind)
}

/// The name of an event kind.
pub open spec fn event_name_spec(k: EventKind) -> Seq<char> {
    match k {
        EventKind::Purchase => "purchase"@,
        EventKind::Listing => "listing"@,
        EventKind::Sale => "sale"@,
        EventKind::Afk => "afk"@,
        EventKind::Error => "error"@,
        EventKind::Startup => "startup"@,
        EventKind::Shards => "shards"@,
    }
}

/// Names an event kind.
pub fn event_name(kind: &EventKind) -> (r: String)
    ensures
        r@ == event_name_spec(*kind),
{
    match kind {
        EventKind::Purchase => String::from_str("purchase"),
        EventKind::Listing => String::from_str("listing"),
        EventKind::Sale => String::from_str("sale"),
        EventKind::Afk => String::from_str("afk"),
        EventKind::Error => String::from_str("error"),
        EventKind::Startup => String::from_str("startup"),
        EventKind::Shards => String::from_str("shards"),
    }
}

/// A lower-case ASCII letter mapped to upper case; anything else
/// unchanged.
pub open spec fn upper_char(c: char) -> char {
    if 'a' <= c && c <= 'z' {
        (((c as u8) - 32) as char)
    } else {
        c
    }
}

/// `s` with its first character upper-cased, ASCII letters only.
pub open spec fn capitalize_spec(s: Seq<char>) -> Seq<char> {
    if s.len() == 0 {
        s
    } else {
        seq![upper_char(s[0])] + s.skip(1)
    }
}

/// Upper-cases the first character of `s`, ASCII letters only.
pub fn capitalize_first(s: &str) -> (r: String)
    ensures
        r@ == capitalize_spec(s@),
{
    let n = s.unicode_len();
    let mut out = String::new();
    if n == 0 {
        proof {
            assert(out@ =~= capitalize_spec(s@));
        }
        return out;
    }
    let c = s.get_char(0);
    let u = c as u32;
    let first = if 97 <= u && u <= 122 {
        ((c as u8) - 32) as char
    } else {
        c
    };
    push_char(&mut out, first);
    let mut i: usize = 1;
    while i < n
        invariant
            n == s@.len(),
            1 <= i <= n,
            out@ == seq![upper_char(s@[0])] + s@.subrange(1, i as int),
        decreases n - i,
    {
        push_char(&mut out, s.get_char(i));
        proof {
            assert(seq![upper_char(s@[0])] + s@.subrange(1, i + 1) =~= (seq![upper_char(s@[0])]
                + s@.subrange(1, i as int)).push(s@[i as int]));
        }
        i += 1;
    }
    proof {
        assert(s@.subrange(1, n as int) =~= s@.skip(1));
        assert(out@ =~= capitalize_spec(s@));
    }
    out
}

/// The title of a delivered record: the capitalised kind name followed
/// by the word "Event".
pub fn webhook_title(kind: &EventKind) -> (r: String)
    ensures
        r@ == capitalize_spec(event_name_spec(*kind)) + " Event"@,
{
    let name = event_name(kind);
    let capped = capitalize_first(name.as_str());
    capped.concat(" Event")
}

} // verus!
