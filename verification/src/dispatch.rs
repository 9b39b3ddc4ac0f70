use vstd::prelude::*;
use crate::event::{EventV, LifecycleEvent};

verus! {

/// The exact message that requests a new window.
pub open spec fn new_window_msg() -> Seq<char> {
    "new-window"@
}

/// The exact message that requests closing the sending window.
pub open spec fn close_msg() -> Seq<char> {
    "close"@
}

/// The prefix that marks a title-change message (no trailing colon).
pub open spec fn title_prefix() -> Seq<char> {
    "change-title"@
}

/// The token stripped out of a title-change message (with the colon).
pub open spec fn title_token() -> Seq<char> {
    "change-title:"@
}

/// `s` begins with `p`.
pub open spec fn starts_with(s: Seq<char>, p: Seq<char>) -> bool {
    p.len() <= s.len() && s.subrange(0, p.len() as int) == p
}

/// Remove every occurrence of `tok` from `s`, scanning left to right without
/// overlap. This is a global substring removal, not an anchored prefix strip:
/// a title that itself contains the token loses it too.
pub open spec fn strip_all(s: Seq<char>, tok: Seq<char>) -> Seq<char>
    decreases s.len(),
{
    if tok.len() == 0 || s.len() < tok.len() {
        s
    } else if s.subrange(0, tok.len() as int) == tok {
        strip_all(s.skip(tok.len() as int), tok)
    } else {
        seq![s[0]] + strip_all(s.skip(1), tok)
    }
}

/// `m` matches one of the three recognized message forms.
pub open spec fn recognized(m: Seq<char>) -> bool {
    m == new_window_msg() || m == close_msg() || starts_with(m, title_prefix())
}

/// The event, if any, that a message `m` sent by window `id` dispatches to.
/// The three forms are tried in this precedence order.
pub open spec fn spec_dispatch(m: Seq<char>, id: u64) -> Option<EventV> {
    if m == new_window_msg() {
        Some(EventV::NewWindow)
    } else if m == close_msg() {
        Some(EventV::CloseWindow(id))
    } else if starts_with(m, title_prefix()) {
        Some(EventV::TitleChange(id, strip_all(m, title_token())))
    } else {
        None
    }
}

/// The view of an optional event.
pub open spec fn opt_event_view(r: Option<LifecycleEvent>) -> Option<EventV> {
    match r {
        Some(e) => Some(e@),
        None => None,
    }
}

/// Character-content equality of two string slices.
fn str_eq(a: &str, b: &str) -> (r: bool)
    ensures
        r == (a@ == b@),
{
    let sa: String = a.to_owned();
    let sb: String = b.to_owned();
    sa == sb
}

/// `m` begins with the characters `change-title`.
fn has_title_prefix(m: &str) -> (r: bool)
    ensures
        r == starts_with(m@, title_prefix()),
{
    proof {
        reveal_strlit("change-title");
    }
    let n = m.unicode_len();
    if n < 12 {
        false
    } else {
        let head = m.substring_char(0, 12);
        str_eq(head, "change-title")
    }
}

/// Remove every occurrence of the title token from `m`.
pub fn strip_title_token(m: &str) -> (r: String)
    ensures
        r@ == strip_all(m@, title_token()),
{
    proof {
        reveal_strlit("change-title:");
    }
    let n = m.unicode_len();
    let mut out = String::new();
    let mut i: usize = 0;
    proof {
        assert(m@.skip(0) =~= m@);
        assert(out@ + strip_all(m@, title_token()) =~= strip_all(m@, title_token()));
    }
    while i < n
        invariant
            n == m@.len(),
            i <= n,
            title_token().len() == 13,
            strip_all(m@, title_token()) == out@ + strip_all(m@.skip(i as int), title_token()),
        decreases n - i,
    {
        let ghost rem = m@.skip(i as int);
        let ghost tok = title_token();
        let mut matched = false;
        if n - i >= 13 {
            let seg = m.substring_char(i, i + 13);
            matched = str_eq(seg, "change-title:");
            proof {
                assert(rem.subrange(0, 13) =~= m@.subrange(i as int, i as int + 13));
                assert(matched == (rem.subrange(0, 13) == tok));
            }
        }
        if matched {
            proof {
                assert(rem.skip(13) =~= m@.skip(i as int + 13));
                assert(strip_all(rem, tok) == strip_all(rem.skip(13), tok));
            }
            i = i + 13;
        } else {
            let c = m.substring_char(i, i + 1);
            out.append(c);
            proof {
                assert(c@ =~= seq![rem[0]]);
                assert(rem.skip(1) =~= m@.skip(i as int + 1));
                if rem.len() >= 13 {
                    assert(strip_all(rem, tok) == seq![rem[0]] + strip_all(rem.skip(1), tok));
                } else {
                    assert(strip_all(rem, tok) == rem);
                    assert(rem =~= seq![rem[0]] + rem.skip(1));
                    assert(strip_all(rem.skip(1), tok) == rem.skip(1));
                }
                assert(out@ + strip_all(m@.skip(i as int + 1), tok) =~= strip_all(m@, tok));
            }
            i = i + 1;
        }
    }
    proof {
        assert(m@.skip(n as int) =~= Seq::<char>::empty());
        assert(strip_all(m@.skip(n as int), title_token()) =~= Seq::<char>::empty());
        assert(out@ + Seq::<char>::empty() =~= out@);
    }
    out
}

/// The command dispatcher: map one inbound message to at most one lifecycle
/// event attributed to the sending window `id`. Pure classification; it never
/// touches the registry.
pub fn dispatch(m: &str, id: u64) -> (r: Option<LifecycleEvent>)
    ensures
        opt_event_view(r) == spec_dispatch(m@, id),
        r is Some <==> recognized(m@),
{
    if str_eq(m, "new-window") {
        Some(LifecycleEvent::RequestNewWindow)
    } else if str_eq(m, "close") {
        Some(LifecycleEvent::RequestCloseWindow(id))
    } else if has_title_prefix(m) {
        let t = strip_title_token(m);
        Some(LifecycleEvent::RequestTitleChange(id, t))
    } else {
        None
    }
}

/// Dispatcher purity: the dispatched event is a function of the message
/// characters and the sending identity alone, so two invocations on equal
/// inputs yield equal events.
pub proof fn lemma_dispatch_deterministic(m1: Seq<char>, id1: u64, m2: Seq<char>, id2: u64)
    requires
        m1 == m2,
        id1 == id2,
    ensures
        spec_dispatch(m1, id1) == spec_dispatch(m2, id2),
{
}

/// Unknown-message no-op: a message matching none of the three recognized
/// forms dispatches to no event at all.
pub proof fn lemma_unknown_message_no_event(m: Seq<char>, id: u64)
    requires
        !recognized(m),
    ensures
        spec_dispatch(m, id) is None,
{
}

} // verus!
