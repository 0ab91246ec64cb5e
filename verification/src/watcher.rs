//! When a change on disk makes the viewer render its schematic again.

use crate::paths::{can_be_file_name, can_be_parent, file_name, is_file_alone, is_file_in};
use crate::paths::{is_plain_dir, optional_text, parent};
use crate::text::same_text;
use crate::viewer::name_or_empty;
use vstd::prelude::*;

verus! {

/// The time, in nanoseconds, that has to pass between two renderings.
pub const DEBOUNCE: u64 = 500_000_000;

/// The event that tells the page of the viewer about a new rendering.
pub const UPDATED_EVENT: &'static str = "schematic-updated";

/// What happened to a file.
#[derive(Debug, Clone, Copy, PartialEq, Eq, Structural)]
pub enum ChangeKind {
    Created,
    Modified,
    /// It was read, removed, or something else.
    Other,
}

/// Finds the changes that matter. Times are nanoseconds on a clock of the caller's.
pub struct ChangeFilter {
    /// The name of the file that is watched.
    pub target_name: String,
    /// When the file was last found changed, or watching it began.
    pub last_event: u64,
}

/// What to do with a schematic that was rendered again.
pub enum WatchReport {
    /// Send it to the page of the viewer.
    Emit(String),
    /// Write this line to the log.
    Log(String),
}

/// One of the files that changed is called `target`. A file may have no name.
pub open spec fn names_target(names: Seq<Option<String>>, target: Seq<char>) -> bool {
    exists|i: int| 0 <= i < names.len() && is_target(#[trigger] names[i], target)
}

/// The name is there, and it is `target`.
pub open spec fn is_target(name: Option<String>, target: Seq<char>) -> bool {
    name matches Some(n) && n@ == target
}

/// A change at `now` matters: a file called `target` was created or modified, long enough after
/// `last`.
pub open spec fn matters(
    target: Seq<char>,
    last: u64,
    kind: ChangeKind,
    names: Seq<Option<String>>,
    now: u64,
) -> bool {
    &&& kind == ChangeKind::Created || kind == ChangeKind::Modified
    &&& names_target(names, target)
    &&& now - last >= DEBOUNCE
}

impl ChangeFilter {
    /// Begins at `now` to watch the file at `path`.
    pub fn new(path: &str, now: u64) -> (s: Self)
        ensures
            exists|name: Option<Seq<char>>|
                {
                    &&& #[trigger] can_be_file_name(path@, name)
                    &&& s.target_name@ == name_or_empty(name)
                },
            s.last_event == now,
    {
        let name = file_name(path);
        assert(can_be_file_name(path@, optional_text(name)));
        ChangeFilter::for_name(name, now)
    }

    /// Begins at `now` to watch a file of this name.
    pub fn for_name(name: Option<String>, now: u64) -> (s: Self)
        ensures
            s.target_name@ == name_or_empty(optional_text(name)),
            s.last_event == now,
    {
        let target_name: String = match name {
            Some(n) => n,
            None => String::new(),
        };
        ChangeFilter { target_name, last_event: now }
    }

    /// Tells whether the schematic has to be rendered again because of a change to the files of
    /// these names at `now`.
    pub fn accept(&mut self, kind: ChangeKind, names: &Vec<Option<String>>, now: u64) -> (r: bool)
        ensures
            r == matters(old(self).target_name@, old(self).last_event, kind, names@, now),
            final(self).target_name == old(self).target_name,
            final(self).last_event == if r {
                now
            } else {
                old(self).last_event
            },
    {
        if kind != ChangeKind::Created && kind != ChangeKind::Modified {
            return false;
        }
        let mut ours: bool = false;
        let mut i: usize = 0;
        while i < names.len() && !ours
            invariant
                i <= names@.len(),
                ours == exists|j: int| 0 <= j < i && is_target(#[trigger] names@[j], self.target_name@),
            decreases names@.len() - i,
        {
            if let Some(name) = &names[i] {
                if same_text(name.as_str(), self.target_name.as_str()) {
                    assert(is_target(names@[i as int], self.target_name@));
                    ours = true;
                }
            }
            i = i + 1;
        }
        if !ours {
            return false;
        }
        if now < self.last_event || now - self.last_event < DEBOUNCE {
            return false;
        }
        self.last_event = now;
        true
    }

    /// Tells whether the schematic has to be rendered again because of a change to the files at
    /// these paths at `now`.
    pub fn accept_paths(&mut self, kind: ChangeKind, paths: &Vec<String>, now: u64) -> (r: bool)
        ensures
            exists|names: Seq<Option<String>>|
                {
                    &&& #[trigger] are_file_names(paths@, names)
                    &&& r == matters(
                        old(self).target_name@,
                        old(self).last_event,
                        kind,
                        names,
                        now,
                    )
                },
            final(self).target_name == old(self).target_name,
            final(self).last_event == if r {
                now
            } else {
                old(self).last_event
            },
    {
        let mut names: Vec<Option<String>> = Vec::new();
        let mut i: usize = 0;
        while i < paths.len()
            invariant
                i <= paths@.len(),
                are_file_names(paths@.take(i as int), names@),
            decreases paths@.len() - i,
        {
            names.push(file_name(paths[i].as_str()));
            i = i + 1;
        }
        assert(paths@.take(i as int) =~= paths@);
        self.accept(kind, &names, now)
    }
}

/// Each of the names can be the file name of the path at its place.
pub open spec fn are_file_names(paths: Seq<String>, names: Seq<Option<String>>) -> bool {
    &&& names.len() == paths.len()
    &&& forall|i: int|
        0 <= i < paths.len() ==> can_be_file_name(
            (#[trigger] paths[i])@,
            optional_text(names[i]),
        )
}

/// The directory to watch for a file whose path has this parent: the current one if it has none.
pub open spec fn dir_or_here(parent: Option<Seq<char>>) -> Seq<char> {
    match parent {
        Some(dir) => dir,
        None => "."@,
    }
}

/// The directory to watch for a file whose path has this parent.
pub fn parent_or_here(parent: Option<String>) -> (dir: String)
    ensures
        dir@ == dir_or_here(optional_text(parent)),
{
    match parent {
        Some(dir) => dir,
        None => ".".to_string(),
    }
}

/// `dir` is the directory to watch for the file at `path`.
pub open spec fn is_watch_dir(path: Seq<char>, dir: Seq<char>) -> bool {
    exists|found: Option<Seq<char>>|
        {
            &&& #[trigger] can_be_parent(path, found)
            &&& dir == dir_or_here(found)
        }
}

/// The directory to watch for the file at `path`.
pub fn watch_dir(path: &str) -> (dir: String)
    ensures
        is_watch_dir(path@, dir@),
{
    let found = parent(path);
    assert(can_be_parent(path@, optional_text(found)));
    parent_or_here(found)
}

/// A schematic `name` in the directory `dir` is watched for in that directory, or in the root if it
/// is there, by that name.
pub proof fn law_schematic_is_watched_where_it_is(
    path: Seq<char>,
    dir: Seq<char>,
    name: Seq<char>,
    end: Seq<char>,
    watched: Seq<char>,
    found: Option<Seq<char>>,
)
    requires
        is_file_in(path, dir, name, end),
        is_watch_dir(path, watched),
        can_be_file_name(path, found),
    ensures
        is_plain_dir(dir) ==> watched == dir,
        dir.len() == 0 ==> watched == seq!['/'],
        name_or_empty(found) == name,
{
}

/// Decides what to do with a schematic that was rendered again.
pub fn watch_report(rendered: Result<String, String>) -> (r: WatchReport)
    ensures
        match rendered {
            Ok(svg) => r == WatchReport::Emit(svg),
            Err(e) => r matches WatchReport::Log(line) && line@ == "[Viewer] Render error: "@ + e@,
        },
{
    match rendered {
        Ok(svg) => WatchReport::Emit(svg),
        Err(e) => WatchReport::Log("[Viewer] Render error: ".to_string().concat(e.as_str())),
    }
}

/// A change to some files.
pub struct Change {
    pub kind: ChangeKind,
    pub names: Seq<Option<String>>,
    pub now: u64,
}

/// When the changes make the viewer render, starting from the time `last`.
pub open spec fn render_times(target: Seq<char>, last: u64, changes: Seq<Change>) -> Seq<u64>
    decreases changes.len(),
{
    if changes.len() == 0 {
        Seq::empty()
    } else {
        let c = changes.first();
        if matters(target, last, c.kind, c.names, c.now) {
            seq![c.now] + render_times(target, c.now, changes.drop_first())
        } else {
            render_times(target, last, changes.drop_first())
        }
    }
}

/// When the changes last made the viewer render, starting from the time `last`.
pub open spec fn last_render(target: Seq<char>, last: u64, changes: Seq<Change>) -> u64
    decreases changes.len(),
{
    if changes.len() == 0 {
        last
    } else {
        let c = changes.first();
        let next = if matters(target, last, c.kind, c.names, c.now) {
            c.now
        } else {
            last
        };
        last_render(target, next, changes.drop_first())
    }
}

/// Changes that do not matter when they come in, however many, leave everything as it was: the
/// viewer renders at the same times as without them, before and after.
pub proof fn law_ignored_changes_leave_no_trace(
    target: Seq<char>,
    last: u64,
    before: Seq<Change>,
    ignored: Seq<Change>,
    after: Seq<Change>,
)
    requires
        forall|i: int|
            0 <= i < ignored.len() ==> !matters(
                target,
                last_render(target, last, before),
                (#[trigger] ignored[i]).kind,
                ignored[i].names,
                ignored[i].now,
            ),
    ensures
        render_times(target, last, before + ignored + after) == render_times(
            target,
            last,
            before + after,
        ),
        last_render(target, last, before + ignored + after) == last_render(
            target,
            last,
            before + after,
        ),
    decreases before.len() + ignored.len(),
{
    let all = before + ignored + after;
    let kept = before + after;
    if before.len() > 0 {
        let c = before.first();
        let rest = before.drop_first();
        let next = if matters(target, last, c.kind, c.names, c.now) {
            c.now
        } else {
            last
        };
        assert(all.first() == c);
        assert(kept.first() == c);
        assert(all.drop_first() =~= rest + ignored + after);
        assert(kept.drop_first() =~= rest + after);
        law_ignored_changes_leave_no_trace(target, next, rest, ignored, after);
    } else if ignored.len() > 0 {
        let rest = ignored.drop_first();
        assert(all.first() == ignored[0]);
        assert(all.drop_first() =~= before + rest + after);
        assert forall|i: int| 0 <= i < rest.len() implies !matters(
            target,
            last_render(target, last, before),
            (#[trigger] rest[i]).kind,
            rest[i].names,
            rest[i].now,
        ) by {
            assert(rest[i] == ignored[i + 1]);
        }
        law_ignored_changes_leave_no_trace(target, last, before, rest, after);
    } else {
        assert(all =~= kept);
    }
}

/// Changes to other files, or of another kind, however many and whenever they come in, leave the
/// times at which the viewer renders as they were.
pub proof fn law_other_changes_leave_no_trace(
    target: Seq<char>,
    last: u64,
    before: Seq<Change>,
    others: Seq<Change>,
    after: Seq<Change>,
)
    requires
        forall|i: int|
            0 <= i < others.len() ==> (#[trigger] others[i]).kind == ChangeKind::Other
                || !names_target(others[i].names, target),
    ensures
        render_times(target, last, before + others + after) == render_times(
            target,
            last,
            before + after,
        ),
{
    law_ignored_changes_leave_no_trace(target, last, before, others, after);
}

/// Between any two of the times, and between `last` and each of them, lies the debounce time.
pub open spec fn keep_distance(times: Seq<u64>, last: u64) -> bool {
    &&& forall|i: int| 0 <= i < times.len() ==> #[trigger] times[i] - last >= DEBOUNCE
    &&& forall|i: int, j: int|
        0 <= i < j < times.len() ==> #[trigger] times[j] - #[trigger] times[i] >= DEBOUNCE
}

/// Whatever changes come in, and at whatever times, the viewer never renders sooner than the
/// debounce time after watching began or after it rendered before.
pub proof fn law_renderings_keep_their_distance(
    target: Seq<char>,
    last: u64,
    changes: Seq<Change>,
)
    ensures
        keep_distance(render_times(target, last, changes), last),
    decreases changes.len(),
{
    if changes.len() > 0 {
        let c = changes.first();
        let rest = changes.drop_first();
        if matters(target, last, c.kind, c.names, c.now) {
            law_renderings_keep_their_distance(target, c.now, rest);
            let later = render_times(target, c.now, rest);
            let times = render_times(target, last, changes);
            assert(times =~= seq![c.now] + later);
            assert forall|i: int, j: int| 0 <= i < j < times.len() implies #[trigger] times[j]
                - #[trigger] times[i] >= DEBOUNCE by {
                assert(times[j] == later[j - 1]);
                if i > 0 {
                    assert(times[i] == later[i - 1]);
                }
            }
            assert forall|i: int| 0 <= i < times.len() implies #[trigger] times[i] - last
                >= DEBOUNCE by {
                if i > 0 {
                    assert(times[i] == later[i - 1]);
                }
            }
        } else {
            law_renderings_keep_their_distance(target, last, rest);
        }
    }
}

/// A change to other files, or of another kind, never makes the viewer render.
pub proof fn law_other_changes_do_not_matter(
    target: Seq<char>,
    last: u64,
    kind: ChangeKind,
    names: Seq<Option<String>>,
    now: u64,
)
    requires
        kind == ChangeKind::Other || !names_target(names, target),
    ensures
        !matters(target, last, kind, names, now),
{
}

/// A change makes the viewer render if and only if the file was created or modified, one of the
/// names is that of the schematic, and half a second has passed.
pub proof fn law_when_a_change_renders(
    target: Seq<char>,
    last: u64,
    kind: ChangeKind,
    names: Seq<Option<String>>,
    now: u64,
)
    ensures
        matters(target, last, kind, names, now) <==> {
            &&& kind is Created || kind is Modified
            &&& exists|i: int|
                0 <= i < names.len() && (#[trigger] names[i]) is Some && names[i]->Some_0@ == target
            &&& now >= last + 500_000_000
        },
{
    if exists|i: int|
        0 <= i < names.len() && (#[trigger] names[i]) is Some && names[i]->Some_0@ == target {
        let i = choose|i: int|
            0 <= i < names.len() && (#[trigger] names[i]) is Some && names[i]->Some_0@ == target;
        assert(is_target(names[i], target));
    }
    if names_target(names, target) {
        let i = choose|i: int| 0 <= i < names.len() && is_target(#[trigger] names[i], target);
        assert(names[i] is Some && names[i]->Some_0@ == target);
    }
}

/// Whenever the schematic is saved half a second or more after it was last rendered or watching it
/// began, it is rendered again: the filter that was made for the file `name` in one directory
/// accepts a change to the file of that name in any.
pub proof fn law_saved_schematic_is_rendered_again(
    dir: Seq<char>,
    name: Seq<char>,
    found: Option<Seq<char>>,
    changed_dir: Seq<char>,
    paths: Seq<String>,
    names: Seq<Option<String>>,
    i: int,
    last: u64,
    kind: ChangeKind,
    now: u64,
)
    requires
        name.len() > 0,
        name != seq!['.'],
        name != seq!['.', '.'],
        forall|j: int| 0 <= j < name.len() ==> #[trigger] name[j] != '/' && name[j] != '\\',
        ({
            let path = dir + seq!['/'] + name;
            path[0] == '/' || path[0] == '\\' ==> path[1] != '/' && path[1] != '\\' && path[1]
                != '?'
        }),
        ({
            let path = changed_dir + seq!['/'] + name;
            path[0] == '/' || path[0] == '\\' ==> path[1] != '/' && path[1] != '\\' && path[1]
                != '?'
        }),
        can_be_file_name(dir + seq!['/'] + name, found),
        are_file_names(paths, names),
        0 <= i < paths.len(),
        paths[i]@ == changed_dir + seq!['/'] + name,
        kind is Created || kind is Modified,
        now >= last + 500_000_000,
    ensures
        matters(name_or_empty(found), last, kind, names, now),
{
    let none = Seq::<char>::empty();
    assert(dir + seq!['/'] + name =~= dir + seq!['/'] + name + none);
    assert(is_file_in(dir + seq!['/'] + name, dir, name, none));
    assert(paths[i]@ =~= changed_dir + seq!['/'] + name + none);
    assert(is_file_in(paths[i]@, changed_dir, name, none));
    assert(is_target(names[i], name));
}

/// A filter for the schematic at `path` watches for its file name, and the directory to watch is
/// the one it is in.
pub proof fn law_filter_watches_the_schematic(
    dir: Seq<char>,
    name: Seq<char>,
    found: Option<Seq<char>>,
    watched: Seq<char>,
)
    requires
        name.len() > 0,
        name != seq!['.'],
        name != seq!['.', '.'],
        forall|j: int| 0 <= j < name.len() ==> #[trigger] name[j] != '/' && name[j] != '\\',
        dir.len() > 2,
        dir[0] == '/' ==> dir[1] != '/' && dir[1] != '\\' && dir[1] != '?',
        dir[0] != '\\',
        dir[dir.len() - 1] != '/',
        dir[dir.len() - 1] != '\\',
        dir[dir.len() - 1] != '.',
        can_be_file_name(dir + seq!['/'] + name, found),
        is_watch_dir(dir + seq!['/'] + name, watched),
    ensures
        name_or_empty(found) == name,
        watched == dir,
{
    let none = Seq::<char>::empty();
    assert(dir + seq!['/'] + name =~= dir + seq!['/'] + name + none);
    assert(is_file_in(dir + seq!['/'] + name, dir, name, none));
}

/// A filter for a schematic given by its name alone watches for that name.
pub proof fn law_filter_watches_a_name_alone(name: Seq<char>, found: Option<Seq<char>>)
    requires
        name.len() > 0,
        name != seq!['.'],
        name != seq!['.', '.'],
        forall|j: int| 0 <= j < name.len() ==> #[trigger] name[j] != '/' && name[j] != '\\',
        name.len() > 1 ==> name[1] != ':',
        can_be_file_name(name, found),
    ensures
        name_or_empty(found) == name,
{
    let none = Seq::<char>::empty();
    assert(name =~= name + none);
    assert(is_file_alone(name, name, none));
}

/// The parent is the directory to watch if there is one, and the current directory if not.
pub proof fn law_parent_is_watched(dir: Seq<char>)
    ensures
        dir_or_here(Some(dir)) == dir,
        dir_or_here(None) == "."@,
{
}

/// What changes do is done in order: those that come later start from when those before them last
/// made the viewer render.
pub proof fn law_changes_are_taken_in_order(
    target: Seq<char>,
    last: u64,
    a: Seq<Change>,
    b: Seq<Change>,
)
    ensures
        render_times(target, last, a + b) == render_times(target, last, a) + render_times(
            target,
            last_render(target, last, a),
            b,
        ),
    decreases a.len(),
{
    if a.len() == 0 {
        assert(a + b =~= b);
        assert(render_times(target, last, a) + render_times(target, last, b) =~= render_times(
            target,
            last,
            b,
        ));
    } else {
        let c = a.first();
        let next = if matters(target, last, c.kind, c.names, c.now) {
            c.now
        } else {
            last
        };
        assert((a + b).first() == c);
        assert((a + b).drop_first() =~= a.drop_first() + b);
        law_changes_are_taken_in_order(target, next, a.drop_first(), b);
        assert(render_times(target, last, a + b) =~= render_times(target, last, a) + render_times(
            target,
            last_render(target, last, a),
            b,
        ));
    }
}

/// A change to the schematic that comes half a second or more after the viewer last rendered makes
/// it render then.
pub proof fn law_late_change_renders(
    target: Seq<char>,
    last: u64,
    before: Seq<Change>,
    change: Change,
    i: int,
)
    requires
        change.kind is Created || change.kind is Modified,
        0 <= i < change.names.len(),
        change.names[i] is Some,
        change.names[i]->Some_0@ == target,
        change.now >= last_render(target, last, before) + 500_000_000,
    ensures
        render_times(target, last, before.push(change)) == render_times(target, last, before).push(
            change.now,
        ),
{
    let at = last_render(target, last, before);
    let one = seq![change];
    assert(is_target(change.names[i], target));
    assert(before.push(change) =~= before + one);
    law_changes_are_taken_in_order(target, last, before, one);
    assert(one.first() == change);
    assert(one.drop_first() =~= Seq::<Change>::empty());
    assert(matters(target, at, change.kind, change.names, change.now));
    assert(render_times(target, change.now, one.drop_first()) =~= Seq::<u64>::empty());
    assert(render_times(target, at, one) =~= seq![change.now]);
    assert(render_times(target, last, before) + seq![change.now] =~= render_times(
        target,
        last,
        before,
    ).push(change.now));
}

/// The event that the page of the viewer waits for.
pub proof fn law_page_is_told_of_updates()
    ensures
        UPDATED_EVENT@ == "schematic-updated"@,
        DEBOUNCE == 500 * 1_000_000,
{
}

} // verus!
