//! Properties that hold across calls of the session's operations.
use vstd::prelude::*;

use crate::session::{
    after_key, after_stop, key_effect, redraw_of, releasing, Effect, Key, SessionView,
};

verus! {

/// The session after the keys of `keys`, handled in order.
pub open spec fn after_keys(s: SessionView, keys: Seq<Key>) -> SessionView
    decreases keys.len(),
{
    if keys.len() == 0 {
        s
    } else {
        after_key(after_keys(s, keys.drop_last()), keys.last())
    }
}

/// One key keeps the cursor within the buffer.
pub proof fn key_keeps_cursor_in_line(s: SessionView, key: Key)
    requires
        s.cursor <= s.buffer.len(),
    ensures
        after_key(s, key).cursor <= after_key(s, key).buffer.len(),
{
}

/// After every key of any sequence of keys, the cursor stands within the
/// buffer, provided it did at the start.
pub proof fn keys_keep_cursor_in_line(s: SessionView, keys: Seq<Key>)
    requires
        s.cursor <= s.buffer.len(),
    ensures
        forall|i: int|
            0 <= i <= keys.len() ==> #[trigger] after_keys(s, keys.take(i)).cursor <= after_keys(
                s,
                keys.take(i),
            ).buffer.len(),
    decreases keys.len(),
{
    if keys.len() > 0 {
        let front = keys.drop_last();
        keys_keep_cursor_in_line(s, front);
        assert forall|i: int| 0 <= i <= keys.len() implies #[trigger] after_keys(
            s,
            keys.take(i),
        ).cursor <= after_keys(s, keys.take(i)).buffer.len() by {
            if i < keys.len() {
                assert(keys.take(i) =~= front.take(i));
            } else {
                assert(keys.take(i) =~= keys);
                assert(front.take(front.len() as int) =~= front);
                key_keeps_cursor_in_line(after_keys(s, front), keys.last());
            }
        }
    } else {
        assert(keys.take(0) =~= keys);
    }
}

/// What a redraw writes depends only on whether the terminal is held, the
/// prefix, the buffer, the cursor and the terminal's size. A redraw changes
/// none of them, so two redraws with no change in between write the same.
pub proof fn redraw_depends_on_line_only(a: SessionView, b: SessionView)
    requires
        a.sink == b.sink,
        a.prefix == b.prefix,
        a.buffer == b.buffer,
        a.cursor == b.cursor,
        a.size == b.size,
    ensures
        redraw_of(a) == redraw_of(b),
{
}

/// With stopping on interrupt configured, the interrupt key releases a
/// running session before the signal is raised, also one whose earlier
/// release has not been finished; once the release has succeeded the
/// session is stopped, so that a later stop is refused. During a graceful
/// stop, which the controller finishes, the signal alone is raised.
pub proof fn interrupt_stops_when_configured(s: SessionView)
    requires
        s.running,
        s.stop_on_ctrl_c,
    ensures
        !s.draining ==> key_effect(s, Key::Ctrl('c')) == Effect::Interrupt(true),
        !s.draining ==> after_key(s, Key::Ctrl('c')) == releasing(s),
        s.draining ==> key_effect(s, Key::Ctrl('c')) == Effect::Interrupt(false),
        s.draining ==> after_key(s, Key::Ctrl('c')) == s,
        !after_stop(after_key(s, Key::Ctrl('c'))).running,
{
}

/// A stop marks nothing stopped by itself: until the release has been
/// finished the session still runs, so a failed release can be tried
/// again; once finished, the session is stopped.
pub proof fn stop_is_finished_only_after_release(s: SessionView)
    requires
        s.running,
    ensures
        releasing(s).running,
        !releasing(s).sink,
        releasing(releasing(s)) == releasing(s),
        !after_stop(releasing(s)).running,
{
}

/// Without stopping on interrupt, the interrupt key leaves the session as
/// it is, running or not, and still raises the signal.
pub proof fn interrupt_keeps_session_otherwise(s: SessionView)
    requires
        !s.stop_on_ctrl_c,
    ensures
        after_key(s, Key::Ctrl('c')) == s,
        key_effect(s, Key::Ctrl('c')) == Effect::Interrupt(false),
{
}

} // verus!
