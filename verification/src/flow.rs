//! Runs of the provisioning engine, and what holds of every run.

use vstd::prelude::*;

use crate::config::{complete, ConfigView};
use crate::dialogue::{EventView, Notice};
use crate::engine::{
    after, after_folder, after_login, first_phase, holds_password, idle, moved, sound, EngineView,
    Mode, Outcome, Phase,
};
use crate::entry::{chopped, stripped, valid_password, valid_username};
use crate::hasher::stored_digest;
use crate::text::bytes_of;

verus! {

/// Where a sequence of events leads, one after another. The notice is that
/// of the last event.
pub open spec fn run(e: EngineView, c: ConfigView, events: Seq<EventView>) -> Outcome
    decreases events.len(),
{
    if events.len() == 0 {
        moved(e, c)
    } else {
        let before = run(e, c, events.drop_last());
        after(before.engine, before.config, events.last())
    }
}

/// The events of one login that is typed, confirmed and repeated without a
/// slip: the name, the password, the name again, the password again. Each
/// line ends in one character more than the entry, whatever it is.
pub open spec fn confirmed_entry(
    name: Seq<char>,
    secret: Seq<char>,
    ending: char,
) -> Seq<EventView> {
    seq![
        EventView::Line(name.push(ending)),
        EventView::Secret(secret),
        EventView::Line(name.push(ending)),
        EventView::Secret(secret),
    ]
}

/// Whether an event is the answer to a probe that found the path to be
/// absolute and an existing directory.
pub open spec fn is_good_probe(event: EventView) -> bool {
    event matches EventView::Probed { absolute, directory } && absolute && directory
}

/// The engine keeps what holds of it at all times, whatever the event.
pub proof fn lemma_soundness_is_kept(e: EngineView, c: ConfigView, event: EventView)
    requires
        sound(e),
    ensures
        sound(after(e, c, event).engine),
        after(e, c, event).engine.mode == e.mode,
{
}

/// A user name and a password within policy, typed and repeated without a
/// slip, give exactly one new login: that of the name as typed, with the
/// digest of the password. Nothing else in the store changes, and the
/// engine holds on to nothing afterwards.
pub proof fn lemma_confirmed_entry_gives_one_login(
    mode: Mode,
    c: ConfigView,
    name: Seq<char>,
    secret: Seq<char>,
    ending: char,
)
    requires
        valid_username(name),
        valid_password(secret),
        !c.logins.contains_key(name),
        c.logins.dom().finite(),
    ensures
        ({
            let end = run(idle(mode, Phase::Username), c, confirmed_entry(name, secret, ending));
            &&& end.config.logins == c.logins.insert(name, stored_digest(bytes_of(secret)))
            &&& end.config.logins.dom().len() == c.logins.dom().len() + 1
            &&& end.config.folders == c.folders
            &&& end.engine == idle(mode, after_login(mode, c))
            &&& end.notice is None
        }),
{
    let events = confirmed_entry(name, secret, ending);
    let e0 = idle(mode, Phase::Username);
    let s1 = events.take(1);
    let s2 = events.take(2);
    let s3 = events.take(3);
    assert(chopped(name.push(ending)) =~= name);
    assert(s1.drop_last() =~= events.take(0));
    assert(s2.drop_last() =~= s1);
    assert(s3.drop_last() =~= s2);
    assert(events.drop_last() =~= s3);
    assert(run(e0, c, events.take(0)) == moved(e0, c));
    let o1 = run(e0, c, s1);
    assert(s1.last() == events[0]);
    assert(o1 == moved(EngineView { phase: Phase::Password, username: name, ..e0 }, c));
    let o2 = run(e0, c, s2);
    assert(s2.last() == events[1]);
    assert(o2 == moved(
        EngineView { phase: Phase::ConfirmUsername, username: name, password: secret, ..e0 },
        c,
    ));
    let o3 = run(e0, c, s3);
    assert(s3.last() == events[2]);
    assert(o3 == moved(
        EngineView { phase: Phase::ConfirmPassword, username: name, password: secret, ..e0 },
        c,
    ));
    assert(events.last() == events[3]);
}

/// A user name that already has a login is never entered again: the store
/// stays as it is, the operator is told, and the engine goes back to the
/// question whether a login is to be entered.
pub proof fn lemma_duplicate_is_refused(e: EngineView, c: ConfigView)
    requires
        e.phase == Phase::ConfirmPassword,
        c.logins.contains_key(e.username),
    ensures
        after(e, c, EventView::Secret(e.password)).config == c,
        after(e, c, EventView::Secret(e.password)).engine == idle(e.mode, Phase::LoginConsent),
        after(e, c, EventView::Secret(e.password)).notice is Some,
{
}

/// A slip in repeating the user name or the password enters nothing: the
/// store stays as it is, the engine lets go of the password and of the
/// name, and the flow starts again at the user name.
pub proof fn lemma_slip_starts_over(e: EngineView, c: ConfigView, event: EventView)
    requires
        match event {
            EventView::Line(line) => e.phase == Phase::ConfirmUsername && chopped(line)
                != e.username,
            EventView::Secret(secret) => e.phase == Phase::ConfirmPassword && secret
                != e.password,
            _ => false,
        },
    ensures
        after(e, c, event).config == c,
        after(e, c, event).engine == idle(e.mode, Phase::Username),
        after(e, c, event).engine.password == Seq::<char>::empty(),
        after(e, c, event).notice == Some(
            if event is Line {
                Notice::UsernameMismatch
            } else {
                Notice::PasswordMismatch
            },
        ),
{
}

/// While no probe finds an absolute path of an existing directory, no
/// folder is entered and the engine keeps asking for a path, however many
/// paths are typed.
pub proof fn lemma_rejected_paths_enter_nothing(e: EngineView, c: ConfigView, events: Seq<EventView>)
    requires
        e.phase == Phase::FolderPath || e.phase == Phase::FolderCheck,
        forall|i: int| 0 <= i < events.len() ==> !is_good_probe(#[trigger] events[i]),
    ensures
        run(e, c, events).config == c,
        run(e, c, events).engine.phase == Phase::FolderPath || run(e, c, events).engine.phase
            == Phase::FolderCheck,
    decreases events.len(),
{
    if events.len() > 0 {
        let earlier = events.drop_last();
        assert forall|i: int| 0 <= i < earlier.len() implies !is_good_probe(
            #[trigger] earlier[i],
        ) by {
            assert(earlier[i] == events[i]);
        }
        lemma_rejected_paths_enter_nothing(e, c, earlier);
        assert(!is_good_probe(events[events.len() - 1]));
    }
}

/// A run over two sequences of events in a row is the run over the second
/// from where the run over the first has led: it ends with the same engine
/// and the same store, and, where the second has an event at all, with the
/// same notice.
pub proof fn lemma_run_goes_on(
    e: EngineView,
    c: ConfigView,
    first: Seq<EventView>,
    second: Seq<EventView>,
)
    ensures
        ({
            let whole = run(e, c, first + second);
            let rest = run(run(e, c, first).engine, run(e, c, first).config, second);
            &&& whole.engine == rest.engine
            &&& whole.config == rest.config
            &&& second.len() > 0 ==> whole.notice == rest.notice
        }),
    decreases second.len(),
{
    if second.len() == 0 {
        assert(first + second =~= first);
    } else {
        assert((first + second).drop_last() =~= first + second.drop_last());
        assert((first + second).last() == second.last());
        lemma_run_goes_on(e, c, first, second.drop_last());
    }
}

/// The events of one folder that is typed and found to be in order: the
/// line, and a probe that finds an absolute path of an existing directory.
pub open spec fn accepted_path(line: Seq<char>) -> Seq<EventView> {
    seq![EventView::Line(line), EventView::Probed { absolute: true, directory: true }]
}

/// However many paths were refused before, the path that is accepted is
/// entered as the line that was typed, without the white space after it and
/// with nothing else taken away. The logins stay as they are.
pub proof fn lemma_accepted_path_is_the_trimmed_line(
    e: EngineView,
    c: ConfigView,
    refused: Seq<EventView>,
    line: Seq<char>,
)
    requires
        e.phase == Phase::FolderPath,
        forall|i: int| 0 <= i < refused.len() ==> !is_good_probe(#[trigger] refused[i]),
        run(e, c, refused).engine.phase == Phase::FolderPath,
    ensures
        ({
            let end = run(e, c, refused + accepted_path(line));
            &&& end.config.folders == c.folders.insert(stripped(line))
            &&& end.config.logins == c.logins
            &&& end.engine == idle(e.mode, after_folder(e.mode))
            &&& end.notice is None
        }),
{
    let events = accepted_path(line);
    lemma_rejected_paths_enter_nothing(e, c, refused);
    lemma_run_goes_on(e, c, refused, events);
    lemma_mode_is_kept(e, c, refused);
    let mid = run(e, c, refused);
    let typed = events.drop_last();
    assert(typed.drop_last() =~= Seq::<EventView>::empty());
    assert(typed.last() == EventView::Line(line));
    assert(events.last() == (EventView::Probed { absolute: true, directory: true }));
    let none = run(mid.engine, mid.config, typed.drop_last());
    assert(none == moved(mid.engine, mid.config));
    let probing = run(mid.engine, mid.config, typed);
    assert(probing == after(mid.engine, mid.config, EventView::Line(line)));
    assert(probing.engine.phase == Phase::FolderCheck);
    assert(probing.engine.folder == stripped(line));
    assert(probing.config == c);
    let end = run(mid.engine, mid.config, events);
    assert(end == after(
        probing.engine,
        probing.config,
        EventView::Probed { absolute: true, directory: true },
    ));
}

/// No event changes the mode of a run.
pub proof fn lemma_mode_is_kept(e: EngineView, c: ConfigView, events: Seq<EventView>)
    ensures
        run(e, c, events).engine.mode == e.mode,
    decreases events.len(),
{
    if events.len() > 0 {
        lemma_mode_is_kept(e, c, events.drop_last());
    }
}

/// A folder that is in the store already is absorbed in silence: the store
/// stays as it is and the operator is told nothing.
pub proof fn lemma_duplicate_folder_is_absorbed(e: EngineView, c: ConfigView)
    requires
        e.phase == Phase::FolderCheck,
        c.folders.contains(e.folder),
    ensures
        after(e, c, EventView::Probed { absolute: true, directory: true }).config == c,
        after(e, c, EventView::Probed { absolute: true, directory: true }).notice is None,
{
    assert(c.folders.insert(e.folder) =~= c.folders);
}

/// The two sets of the store are independent: what is typed never changes
/// the folders, and what a probe finds never changes the logins.
pub proof fn lemma_sets_are_independent(e: EngineView, c: ConfigView, event: EventView)
    ensures
        event is Probed ==> after(e, c, event).config.logins == c.logins,
        !(event is Probed) ==> after(e, c, event).config.folders == c.folders,
{
}

/// Initialising a store that is fully initialised is no operation at all:
/// the engine starts at its end, and at its end no event changes anything.
pub proof fn lemma_initialised_store_is_left_alone(c: ConfigView, events: Seq<EventView>)
    requires
        complete(c),
    ensures
        first_phase(Mode::Initialize, c) == Phase::Finished,
        run(idle(Mode::Initialize, Phase::Finished), c, events) == moved(
            idle(Mode::Initialize, Phase::Finished),
            c,
        ),
    decreases events.len(),
{
    if events.len() > 0 {
        lemma_initialised_store_is_left_alone(c, events.drop_last());
    }
}

/// No secret outlives its use: outside the two phases in which a password
/// is being confirmed, a sound engine holds none.
pub proof fn lemma_no_secret_is_kept(e: EngineView)
    requires
        sound(e),
        !holds_password(e.phase),
    ensures
        e.password == Seq::<char>::empty(),
{
}

} // verus!
