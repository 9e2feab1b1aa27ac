//! Properties of the state machine over whole event sequences, proved
//! once and for all from the transition relation in [`crate::state`].

use vstd::prelude::*;

use crate::editor::EditView;
use crate::events::{Event, Key};
use crate::state::{step_effect, step_state, CoreView, EffectView, Mode};

verus! {

/// The state after consuming a sequence of events, oldest first.
pub open spec fn run(s: CoreView, evs: Seq<Event>, room_len: int, friend_len: int) -> CoreView
    decreases evs.len(),
{
    if evs.len() == 0 {
        s
    } else {
        run(step_state(s, evs[0], room_len, friend_len), evs.drop_first(), room_len, friend_len)
    }
}

/// The effects of consuming a sequence of events, in order.
pub open spec fn run_effects(s: CoreView, evs: Seq<Event>, room_len: int, friend_len: int) -> Seq<
    EffectView,
>
    decreases evs.len(),
{
    if evs.len() == 0 {
        Seq::empty()
    } else {
        seq![step_effect(s, evs[0])] + run_effects(
            step_state(s, evs[0], room_len, friend_len),
            evs.drop_first(),
            room_len,
            friend_len,
        )
    }
}

/// How many of a run's effects ask for a message send.
pub open spec fn send_count(effs: Seq<EffectView>) -> int
    decreases effs.len(),
{
    if effs.len() == 0 {
        0
    } else {
        (if effs[0] is Send {
            1int
        } else {
            0int
        }) + send_count(effs.drop_first())
    }
}

/// `evs` are exactly the key presses that type the characters `cs`,
/// in order.
pub open spec fn is_typed(cs: Seq<char>, evs: Seq<Event>) -> bool {
    &&& evs.len() == cs.len()
    &&& forall|i: int| 0 <= i < cs.len() ==> evs[i] == Event::Input(Key::Char(cs[i]))
}

/// A sequence of bare timer events.
pub open spec fn ticks(n: nat) -> Seq<Event> {
    Seq::new(n, |i: int| Event::Tick)
}

/// Consuming one more event at the end of a run steps the run's final
/// state once, and appends that step's effect to the run's effects.
pub proof fn lemma_run_snoc(s: CoreView, evs: Seq<Event>, ev: Event, room_len: int, friend_len: int)
    ensures
        run(s, evs.push(ev), room_len, friend_len) == step_state(
            run(s, evs, room_len, friend_len),
            ev,
            room_len,
            friend_len,
        ),
        run_effects(s, evs.push(ev), room_len, friend_len) == run_effects(
            s,
            evs,
            room_len,
            friend_len,
        ).push(step_effect(run(s, evs, room_len, friend_len), ev)),
    decreases evs.len(),
{
    if evs.len() == 0 {
        let s1 = step_state(s, ev, room_len, friend_len);
        assert(evs.push(ev)[0] == ev);
        assert(evs.push(ev).drop_first() =~= Seq::<Event>::empty());
        assert(run(s1, Seq::<Event>::empty(), room_len, friend_len) == s1);
        assert(run_effects(s1, Seq::<Event>::empty(), room_len, friend_len) == Seq::<
            EffectView,
        >::empty());
        assert(run_effects(s, evs.push(ev), room_len, friend_len) =~= run_effects(
            s,
            evs,
            room_len,
            friend_len,
        ).push(step_effect(run(s, evs, room_len, friend_len), ev)));
    } else {
        let s1 = step_state(s, evs[0], room_len, friend_len);
        assert(evs.push(ev)[0] == evs[0]);
        assert(evs.push(ev).drop_first() =~= evs.drop_first().push(ev));
        lemma_run_snoc(s1, evs.drop_first(), ev, room_len, friend_len);
        assert(run_effects(s, evs.push(ev), room_len, friend_len) =~= run_effects(
            s,
            evs,
            room_len,
            friend_len,
        ).push(step_effect(run(s, evs, room_len, friend_len), ev)));
    }
}

/// One step keeps the core's invariant against unchanged list lengths.
pub proof fn lemma_step_preserves_wf(s: CoreView, ev: Event, room_len: int, friend_len: int)
    requires
        s.wf(room_len, friend_len),
    ensures
        step_state(s, ev, room_len, friend_len).wf(room_len, friend_len),
{
}

/// A whole run keeps the core's invariant.
pub proof fn lemma_run_preserves_wf(s: CoreView, evs: Seq<Event>, room_len: int, friend_len: int)
    requires
        s.wf(room_len, friend_len),
    ensures
        run(s, evs, room_len, friend_len).wf(room_len, friend_len),
    decreases evs.len(),
{
    if evs.len() > 0 {
        lemma_step_preserves_wf(s, evs[0], room_len, friend_len);
        lemma_run_preserves_wf(
            step_state(s, evs[0], room_len, friend_len),
            evs.drop_first(),
            room_len,
            friend_len,
        );
    }
}

/// Law: under any sequence of events, each cursor stays within its
/// non-empty list, and stays unset over an empty one.
pub proof fn lemma_cursor_never_leaves_range(
    s: CoreView,
    evs: Seq<Event>,
    room_len: int,
    friend_len: int,
)
    requires
        s.wf(room_len, friend_len),
    ensures
        room_len > 0 ==> (run(s, evs, room_len, friend_len).room_cursor matches Some(i) && 0 <= i
            < room_len),
        room_len == 0 ==> run(s, evs, room_len, friend_len).room_cursor is None,
        friend_len > 0 ==> (run(s, evs, room_len, friend_len).friend_cursor matches Some(i) && 0
            <= i < friend_len),
        friend_len == 0 ==> run(s, evs, room_len, friend_len).friend_cursor is None,
{
    lemma_run_preserves_wf(s, evs, room_len, friend_len);
}

/// Law: in normal mode, pressing `i` on any tab but the chat rooms
/// leaves the whole state — the mode in particular — as it was.
pub proof fn lemma_insert_key_needs_chat_rooms(s: CoreView, room_len: int, friend_len: int)
    requires
        s.mode is Normal,
        !(s.menu is ChatRooms),
    ensures
        step_state(s, Event::Input(Key::Char('i')), room_len, friend_len) == s,
        step_effect(s, Event::Input(Key::Char('i'))) == EffectView::DoNothing,
{
}

/// Law: from insert mode, Esc always returns to normal mode with the
/// edit buffer cleared, whatever the buffer held, and asks for nothing.
pub proof fn lemma_esc_cancels(s: CoreView, room_len: int, friend_len: int)
    requires
        s.mode is Insert,
    ensures
        step_state(s, Event::Input(Key::Esc), room_len, friend_len) == (CoreView {
            mode: Mode::Normal,
            buffer: EditView::empty(),
            ..s
        }),
        step_effect(s, Event::Input(Key::Esc)) == EffectView::DoNothing,
{
}

/// Law: a tick never changes the state and never asks for an effect,
/// however many arrive in a row.
pub proof fn lemma_ticks_change_nothing(s: CoreView, n: nat, room_len: int, friend_len: int)
    ensures
        run(s, ticks(n), room_len, friend_len) == s,
        send_count(run_effects(s, ticks(n), room_len, friend_len)) == 0,
    decreases n,
{
    if n == 0 {
        assert(ticks(n) =~= Seq::<Event>::empty());
    } else {
        assert(ticks(n)[0] == Event::Tick);
        assert(ticks(n).drop_first() =~= ticks((n - 1) as nat));
        lemma_ticks_change_nothing(s, (n - 1) as nat, room_len, friend_len);
        let effs = run_effects(s, ticks(n), room_len, friend_len);
        assert(effs[0] == EffectView::DoNothing);
        assert(effs.drop_first() =~= run_effects(s, ticks((n - 1) as nat), room_len, friend_len));
    }
}

/// Typing characters in insert mode, with the buffer's cursor at the
/// end, appends them in order and asks for no send along the way.
pub proof fn lemma_typing_appends(
    s: CoreView,
    cs: Seq<char>,
    evs: Seq<Event>,
    room_len: int,
    friend_len: int,
)
    requires
        s.mode is Insert,
        s.buffer.wf(),
        s.buffer.cursor == s.buffer.text.len(),
        is_typed(cs, evs),
    ensures
        run(s, evs, room_len, friend_len) == (CoreView {
            buffer: EditView {
                text: s.buffer.text + cs,
                cursor: s.buffer.text.len() + cs.len() as int,
            },
            ..s
        }),
        send_count(run_effects(s, evs, room_len, friend_len)) == 0,
    decreases cs.len(),
{
    let target = CoreView {
        buffer: EditView { text: s.buffer.text + cs, cursor: s.buffer.text.len() + cs.len() as int },
        ..s
    };
    if cs.len() == 0 {
        assert(evs =~= Seq::<Event>::empty());
        assert(run(s, evs, room_len, friend_len) =~= target);
    } else {
        let ev = evs[0];
        assert(ev == Event::Input(Key::Char(cs[0])));
        let s1 = step_state(s, ev, room_len, friend_len);
        assert(s1.buffer.text =~= s.buffer.text.push(cs[0]));
        assert(is_typed(cs.drop_first(), evs.drop_first())) by {
            assert(forall|i: int|
                0 <= i < cs.drop_first().len() ==> evs.drop_first()[i] == evs[i + 1]
                    && cs.drop_first()[i] == cs[i + 1]);
        }
        lemma_typing_appends(s1, cs.drop_first(), evs.drop_first(), room_len, friend_len);
        assert(s1.buffer.text + cs.drop_first() =~= s.buffer.text + cs);
        assert(run(s, evs, room_len, friend_len) =~= target);
        let effs = run_effects(s, evs, room_len, friend_len);
        assert(effs[0] == step_effect(s, ev));
        assert(step_effect(s, ev) == EffectView::DoNothing);
        assert(effs.drop_first() =~= run_effects(
            s1,
            evs.drop_first(),
            room_len,
            friend_len,
        ));
    }
}

/// Law: composing a message and pressing Enter asks for exactly one
/// send, carrying the whole composed text, addressed to the selected
/// room, and returns to normal mode with the buffer empty; with no
/// room selected nothing is sent, and the state ends the same way.
pub proof fn lemma_compose_and_submit(
    s: CoreView,
    cs: Seq<char>,
    evs: Seq<Event>,
    room_len: int,
    friend_len: int,
)
    requires
        s.mode is Insert,
        s.buffer.wf(),
        s.buffer.cursor == s.buffer.text.len(),
        is_typed(cs, evs),
    ensures
        ({
            let all = evs.push(Event::Input(Key::Enter));
            let t = run(s, all, room_len, friend_len);
            let effs = run_effects(s, all, room_len, friend_len);
            &&& t.mode is Normal
            &&& t.buffer == EditView::empty()
            &&& (s.room_cursor matches Some(i) ==> {
                &&& send_count(effs) == 1
                &&& effs.last() == EffectView::Send { room_index: i, text: s.buffer.text + cs }
            })
            &&& (s.room_cursor is None ==> send_count(effs) == 0)
        }),
{
    lemma_typing_appends(s, cs, evs, room_len, friend_len);
    let t1 = run(s, evs, room_len, friend_len);
    lemma_run_snoc(s, evs, Event::Input(Key::Enter), room_len, friend_len);
    let effs1 = run_effects(s, evs, room_len, friend_len);
    let last = step_effect(t1, Event::Input(Key::Enter));
    lemma_send_count_snoc(effs1, last);
}

/// Appending one effect to a run adds one to the send count exactly
/// when that effect is a send.
pub proof fn lemma_send_count_snoc(effs: Seq<EffectView>, e: EffectView)
    ensures
        send_count(effs.push(e)) == send_count(effs) + (if e is Send {
            1int
        } else {
            0int
        }),
    decreases effs.len(),
{
    if effs.len() == 0 {
        assert(effs.push(e)[0] == e);
        assert(effs.push(e).drop_first() =~= Seq::<EffectView>::empty());
        assert(send_count(Seq::<EffectView>::empty()) == 0);
    } else {
        assert(effs.push(e)[0] == effs[0]);
        assert(effs.push(e).drop_first() =~= effs.drop_first().push(e));
        lemma_send_count_snoc(effs.drop_first(), e);
    }
}

} // verus!

