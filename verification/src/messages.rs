//! User-facing texts built from configuration and names.
use vstd::prelude::*;
use crate::text::{chars_of, push_str, push_char, string_of};
use crate::entries::{DeviceEntry, DeviceEntryKind};
use crate::state::{entered_dir, listed, DeviceBackend};
use crate::pane::same_text;

verus! {

/// Joins segments with `/`, starting with `/` ("/" alone when there are none).
pub open spec fn slash_path(segs: Seq<Seq<char>>) -> Seq<char>
    decreases segs.len(),
{
    if segs.len() == 0 {
        "/"@
    } else if segs.len() == 1 {
        "/"@ + segs[0]
    } else {
        slash_path(segs.drop_last()) + "/"@ + segs.last()
    }
}

/// The warning shown when the configured device folder could not be fully
/// reached; `reached` are the segments that were entered.
pub open spec fn device_dir_warning_text(configured: Seq<char>, reached: Seq<Seq<char>>) -> Seq<char> {
    "Can't access default_device_dir = \""@ + configured + "\"\n\nOpened \""@ + slash_path(reached) + "\" instead."@
}

/// Builds the device-folder warning.
pub fn device_dir_warning(configured: &str, reached_segments: &[&str]) -> (s: String)
    ensures
        s@ == device_dir_warning_text(configured@, reached_segments@.map_values(|r: &str| r@)),
{
    let ghost segs = reached_segments@.map_values(|r: &str| r@);
    let mut reached = String::new();
    if reached_segments.len() == 0 {
        push_str(&mut reached, "/");
    } else {
        let mut i: usize = 0;
        while i < reached_segments.len()
            invariant
                i <= reached_segments@.len(),
                segs == reached_segments@.map_values(|r: &str| r@),
                i == 0 ==> reached@ == Seq::<char>::empty(),
                i > 0 ==> reached@ == slash_path(segs.take(i as int)),
            decreases reached_segments@.len() - i,
        {
            assert(segs.take(i + 1).drop_last() =~= segs.take(i as int));
            push_str(&mut reached, "/");
            push_str(&mut reached, reached_segments[i]);
            if i == 0 {
                assert(reached@ =~= "/"@ + segs.take(1)[0]);
            }
            i = i + 1;
        }
        assert(segs.take(segs.len() as int) =~= segs);
    }
    let mut s = String::new();
    push_str(&mut s, "Can't access default_device_dir = \"");
    push_str(&mut s, configured);
    push_str(&mut s, "\"\n\nOpened \"");
    push_str(&mut s, reached.as_str());
    push_str(&mut s, "\" instead.");
    assert(s@ =~= device_dir_warning_text(configured@, segs));
    s
}

/// The warning shown when the configured host folder is not usable.
pub open spec fn host_dir_warning_text(raw: Seq<char>) -> Seq<char> {
    "Can't access default_host_dir = \""@ + raw + "\"\n\nUsing current directory instead."@
}

/// The start-up warning about the host folder: none when the configured
/// folder is usable or none is configured.
pub fn host_dir_warning(host_dir_usable: bool, raw: Option<&str>) -> (w: Option<String>)
    ensures
        host_dir_usable ==> w is None,
        !host_dir_usable && raw is None ==> w is None,
        !host_dir_usable && raw is Some ==> (w matches Some(t) && t@ == host_dir_warning_text(raw->Some_0@)),
{
    if host_dir_usable {
        return None;
    }
    match raw {
        None => None,
        Some(r) => {
            let mut s = String::new();
            push_str(&mut s, "Can't access default_host_dir = \"");
            push_str(&mut s, r);
            push_str(&mut s, "\"\n\nUsing current directory instead.");
            Some(s)
        },
    }
}

/// State of splitting: the finished segments and the one being read.
pub open spec fn split_state(s: Seq<char>) -> (Seq<Seq<char>>, Seq<char>)
    decreases s.len(),
{
    if s.len() == 0 {
        (Seq::empty(), Seq::empty())
    } else {
        let (done, cur) = split_state(s.drop_last());
        if s.last() == '/' {
            (if cur.len() > 0 { done.push(cur) } else { done }, Seq::empty())
        } else {
            (done, cur.push(s.last()))
        }
    }
}

/// The non-empty `/`-separated segments of `s`.
pub open spec fn path_segments(s: Seq<char>) -> Seq<Seq<char>> {
    let (done, cur) = split_state(s);
    if cur.len() > 0 {
        done.push(cur)
    } else {
        done
    }
}

/// Splits a folder path into its non-empty segments.
pub fn split_path(path: &str) -> (segs: Vec<String>)
    ensures
        segs@.map_values(|x: String| x@) == path_segments(path@),
{
    let cs = chars_of(path);
    let mut done: Vec<String> = Vec::new();
    let mut cur: Vec<char> = Vec::new();
    let mut i: usize = 0;
    while i < cs.len()
        invariant
            i <= cs@.len(),
            (done@.map_values(|x: String| x@), cur@) == split_state(cs@.take(i as int)),
        decreases cs@.len() - i,
    {
        assert(cs@.take(i + 1).drop_last() =~= cs@.take(i as int));
        let c = cs[i];
        if c == '/' {
            if cur.len() > 0 {
                let seg = string_of(&cur);
                done.push(seg);
                assert(done@.map_values(|x: String| x@) =~= split_state(cs@.take(i as int)).0.push(cur@));
            }
            cur = Vec::new();
        } else {
            cur.push(c);
        }
        i = i + 1;
    }
    assert(cs@.take(cs@.len() as int) =~= cs@);
    if cur.len() > 0 {
        let seg = string_of(&cur);
        done.push(seg);
        assert(done@.map_values(|x: String| x@) =~= split_state(cs@).0.push(cur@));
    }
    done
}

/// Position of the first directory entry named `name`.
pub fn find_directory(entries: &Vec<DeviceEntry>, name: &str) -> (r: Option<usize>)
    ensures
        match r {
            Some(i) => i < entries@.len() && entries@[i as int].kind == DeviceEntryKind::Directory
                && entries@[i as int].name@ == name@ && forall|k: int| 0 <= k < i ==> !(entries@[k].kind
                == DeviceEntryKind::Directory && entries@[k].name@ == name@),
            None => forall|k: int| 0 <= k < entries@.len() ==> !(entries@[k].kind == DeviceEntryKind::Directory
                && entries@[k].name@ == name@),
        },
{
    let mut i: usize = 0;
    while i < entries.len()
        invariant
            i <= entries@.len(),
            forall|k: int| 0 <= k < i ==> !(entries@[k].kind == DeviceEntryKind::Directory && entries@[k].name@ == name@),
        decreases entries@.len() - i,
    {
        if entries[i].kind == DeviceEntryKind::Directory && same_text(entries[i].name.as_str(), name) {
            return Some(i);
        }
        i = i + 1;
    }
    None
}

/// Whether `entries[p]` is the first folder named `name`.
pub open spec fn is_first_directory_named(entries: Seq<DeviceEntry>, name: Seq<char>, p: int) -> bool {
    &&& 0 <= p < entries.len()
    &&& entries[p].kind == DeviceEntryKind::Directory
    &&& entries[p].name@ == name
    &&& forall|k: int| 0 <= k < p ==> !(entries[k].kind == DeviceEntryKind::Directory && entries[k].name@ == name)
}

/// Whether some entry is a folder named `name`.
pub open spec fn has_directory_named(entries: Seq<DeviceEntry>, name: Seq<char>) -> bool {
    exists|k: int| 0 <= k < entries.len() && entries[k].kind == DeviceEntryKind::Directory && entries[k].name@ == name
}

/// The warning after the first `count` segments of `device_dir` were entered.
pub open spec fn warning_after(device_dir: Seq<char>, segments: Seq<String>, count: int) -> Seq<char> {
    device_dir_warning_text(device_dir, segments.map_values(|x: String| x@).take(count))
}

/// One step of the walk into the configured device folder, decided on the
/// listing of the folder reached after `i` segments: the position of the
/// folder to enter for segment `i`, or the warning naming the folder reached
/// when the listing failed or holds no folder of that name.
pub fn segment_step(
    device_dir: &str,
    segments: &Vec<String>,
    i: usize,
    listing: &Result<Vec<DeviceEntry>, String>,
) -> (r: Result<usize, String>)
    requires
        i < segments@.len(),
    ensures
        match listing {
            Ok(entries) => match r {
                Ok(p) => is_first_directory_named(entries@, segments@[i as int]@, p as int),
                Err(t) => !has_directory_named(entries@, segments@[i as int]@)
                    && t@ == warning_after(device_dir@, segments@, i as int),
            },
            Err(_) => r is Err && r->Err_0@ == warning_after(device_dir@, segments@, i as int),
        },
{
    match listing {
        Err(_) => Err(warning_at(device_dir, segments, i)),
        Ok(entries) => match find_directory(entries, segments[i].as_str()) {
            Some(p) => Ok(p),
            None => {
                let t = warning_at(device_dir, segments, i);
                assert(!has_directory_named(entries@, segments@[i as int]@));
                Err(t)
            },
        },
    }
}

/// What the walk does once `enter_dir` answered `entered` for segment `i`:
/// go on with the next segment (`None`), or stop with the warning naming the
/// folder reached.
pub fn enter_step(device_dir: &str, segments: &Vec<String>, i: usize, entered: &Result<(), String>) -> (r: Option<String>)
    requires
        i < segments@.len(),
    ensures
        entered is Ok ==> r is None,
        entered is Err ==> r is Some && r->Some_0@ == warning_after(device_dir@, segments@, i as int),
{
    match entered {
        Ok(()) => None,
        Err(_) => Some(warning_at(device_dir, segments, i)),
    }
}

/// What happened at one segment of the walk into the configured device folder.
#[derive(Debug, Clone, Copy, PartialEq, Eq, Structural)]
pub enum WalkStep {
    /// The folder reached could not be listed.
    Unlisted,
    /// The listing holds no folder of the segment's name.
    Missing,
    /// Entering the folder failed.
    Refused,
    /// The folder was entered.
    Entered,
}

/// The outcome of a walk over `segs` whose segments went as `log` says: every
/// step but the last entered its folder, the walk stopped at the first that
/// did not, and the warning names exactly the segments entered; no warning
/// when every segment was entered.
pub open spec fn walk_outcome(device_dir: Seq<char>, segs: Seq<Seq<char>>, log: Seq<WalkStep>, w: Option<String>) -> bool {
    &&& log.len() <= segs.len()
    &&& forall|k: int| 0 <= k < log.len() - 1 ==> log[k] == WalkStep::Entered
    &&& (w is None <==> (log.len() == segs.len() && (log.len() == 0 || log.last() == WalkStep::Entered)))
    &&& (w is Some ==> log.len() > 0 && log.last() != WalkStep::Entered
        && w->Some_0@ == device_dir_warning_text(device_dir, segs.take(log.len() - 1)))
}

/// The backend calls behind one step of the walk for segment `seg`, made on
/// the backend `st`: `list_current_dir` answered `listing`, and the step is
/// what that answer and the `enter_dir` call (with the id and name of the
/// first folder named `seg`) gave.
pub open spec fn step_calls<B: DeviceBackend>(
    seg: Seq<char>,
    step: WalkStep,
    st: B,
    listing: Result<Vec<DeviceEntry>, String>,
) -> bool {
    &&& listed(st, listing)
    &&& match step {
        WalkStep::Unlisted => listing is Err,
        WalkStep::Missing => listing is Ok && !has_directory_named(listing->Ok_0@, seg),
        WalkStep::Entered => listing is Ok && exists|p: int|
            is_first_directory_named(listing->Ok_0@, seg, p) && #[trigger] entered_dir(
                st,
                listing->Ok_0@[p].id@,
                listing->Ok_0@[p].name@,
                Ok(()),
            ),
        WalkStep::Refused => listing is Ok && exists|p: int, e: String|
            is_first_directory_named(listing->Ok_0@, seg, p) && #[trigger] entered_dir(
                st,
                listing->Ok_0@[p].id@,
                listing->Ok_0@[p].name@,
                Err(e),
            ),
    }
}

/// The backend calls behind a whole walk over `segs` recorded as `log`: step
/// `k` was made on the backend `states[k]` and its listing answered `listings[k]`.
pub open spec fn walk_calls<B: DeviceBackend>(
    segs: Seq<Seq<char>>,
    log: Seq<WalkStep>,
    states: Seq<B>,
    listings: Seq<Result<Vec<DeviceEntry>, String>>,
) -> bool {
    &&& states.len() == log.len()
    &&& listings.len() == log.len()
    &&& log.len() <= segs.len()
    &&& forall|k: int| 0 <= k < log.len() ==> #[trigger] step_calls(segs[k], log[k], states[k], listings[k])
}

/// Walks into the configured device folder segment by segment: lists the
/// folder reached, enters the first folder named like the next segment
/// (see [`segment_step`] and [`enter_step`]), and stops at the first segment
/// that cannot be listed, found or entered with a warning naming the deepest
/// folder reached; none when the whole path was entered. The second result
/// records what happened at each segment tried.
pub fn navigate_to_device_dir<B: DeviceBackend>(backend: &mut B, device_dir: &str) -> (out: (Option<String>, Ghost<Seq<WalkStep>>))
    ensures
        walk_outcome(device_dir@, path_segments(device_dir@), out.1@, out.0),
        path_segments(device_dir@).len() == 0 ==> out.0 is None && out.1@.len() == 0,
        exists|states: Seq<B>, listings: Seq<Result<Vec<DeviceEntry>, String>>|
            #[trigger] walk_calls(path_segments(device_dir@), out.1@, states, listings)
            && (states.len() > 0 ==> states[0] == *old(backend)),
{
    let segments = split_path(device_dir);
    let ghost segs = segments@.map_values(|x: String| x@);
    let ghost start = *backend;
    let ghost mut log: Seq<WalkStep> = Seq::empty();
    let ghost mut states: Seq<B> = Seq::empty();
    let ghost mut listings: Seq<Result<Vec<DeviceEntry>, String>> = Seq::empty();
    let mut i: usize = 0;
    while i < segments.len()
        invariant
            i <= segments@.len(),
            segs == segments@.map_values(|x: String| x@),
            segs == path_segments(device_dir@),
            log.len() == i,
            forall|k: int| 0 <= k < log.len() ==> log[k] == WalkStep::Entered,
            walk_calls(segs, log, states, listings),
            states.len() > 0 ==> states[0] == start,
            i == 0 ==> *backend == start,
            start == *old(backend),
        decreases segments@.len() - i,
    {
        let ghost st = *backend;
        let listing = backend.list_current_dir();
        proof {
            assert(listed(st, listing));
        }
        let pos = match segment_step(device_dir, &segments, i, &listing) {
            Ok(p) => p,
            Err(t) => {
                proof {
                    let step = if listing is Err { WalkStep::Unlisted } else { WalkStep::Missing };
                    let old_log = log;
                    let old_states = states;
                    let old_listings = listings;
                    log = log.push(step);
                    states = states.push(st);
                    listings = listings.push(listing);
                    assert(segments@.map_values(|x: String| x@).take(i as int) == segs.take(i as int));
                    assert(step_calls(segs[i as int], step, st, listing));
                    assert forall|k: int| 0 <= k < log.len() implies #[trigger] step_calls(
                        segs[k],
                        log[k],
                        states[k],
                        listings[k],
                    ) by {
                        if k < i {
                            assert(log[k] == old_log[k]);
                            assert(states[k] == old_states[k]);
                            assert(listings[k] == old_listings[k]);
                        }
                    }
                    assert(walk_calls(segs, log, states, listings));
                }
                return (Some(t), Ghost(log));
            },
        };
        let entries = listing.unwrap();
        let entered = backend.enter_dir(entries[pos].id.as_str(), entries[pos].name.as_str());
        proof {
            assert(entered_dir(st, entries@[pos as int].id@, entries@[pos as int].name@, entered));
        }
        match enter_step(device_dir, &segments, i, &entered) {
            Some(t) => {
                proof {
                    let old_log = log;
                    let old_states = states;
                    let old_listings = listings;
                    log = log.push(WalkStep::Refused);
                    states = states.push(st);
                    listings = listings.push(listing);
                    let e = entered->Err_0;
                    assert(entered_dir(st, entries@[pos as int].id@, entries@[pos as int].name@, Err(e)));
                    assert(step_calls(segs[i as int], WalkStep::Refused, st, listing));
                    assert forall|k: int| 0 <= k < log.len() implies #[trigger] step_calls(
                        segs[k],
                        log[k],
                        states[k],
                        listings[k],
                    ) by {
                        if k < i {
                            assert(log[k] == old_log[k]);
                            assert(states[k] == old_states[k]);
                            assert(listings[k] == old_listings[k]);
                        }
                    }
                    assert(walk_calls(segs, log, states, listings));
                }
                return (Some(t), Ghost(log));
            },
            None => {},
        }
        proof {
            let old_log = log;
            let old_states = states;
            let old_listings = listings;
            let u: () = entered->Ok_0;
            assert(u == ());
            assert(entered == Result::<(), String>::Ok(()));
            log = log.push(WalkStep::Entered);
            states = states.push(st);
            listings = listings.push(listing);
            assert(step_calls(segs[i as int], WalkStep::Entered, st, listing));
            assert forall|k: int| 0 <= k < log.len() implies #[trigger] step_calls(
                segs[k],
                log[k],
                states[k],
                listings[k],
            ) by {
                if k < i {
                    assert(log[k] == old_log[k]);
                    assert(states[k] == old_states[k]);
                    assert(listings[k] == old_listings[k]);
                }
            }
        }
        i = i + 1;
    }
    (None, Ghost(log))
}

fn warning_at(device_dir: &str, segments: &Vec<String>, count: usize) -> (t: String)
    requires
        count < segments@.len(),
    ensures
        t@ == device_dir_warning_text(device_dir@, segments@.map_values(|x: String| x@).take(count as int)),
{
    let ghost segs = segments@.map_values(|x: String| x@).take(count as int);
    let mut reached = String::new();
    if count == 0 {
        push_str(&mut reached, "/");
    } else {
        let mut i: usize = 0;
        while i < count
            invariant
                i <= count < segments@.len(),
                segs == segments@.map_values(|x: String| x@).take(count as int),
                i == 0 ==> reached@ == Seq::<char>::empty(),
                i > 0 ==> reached@ == slash_path(segs.take(i as int)),
            decreases count - i,
        {
            assert(segs.take(i + 1).drop_last() =~= segs.take(i as int));
            assert(segs[i as int] == segments@[i as int]@);
            push_str(&mut reached, "/");
            push_str(&mut reached, segments[i].as_str());
            if i == 0 {
                assert(reached@ =~= "/"@ + segs.take(1)[0]);
            }
            i = i + 1;
        }
        assert(segs.take(segs.len() as int) =~= segs);
    }
    let mut s = String::new();
    push_str(&mut s, "Can't access default_device_dir = \"");
    push_str(&mut s, device_dir);
    push_str(&mut s, "\"\n\nOpened \"");
    push_str(&mut s, reached.as_str());
    push_str(&mut s, "\" instead.");
    assert(s@ =~= device_dir_warning_text(device_dir@, segs));
    s
}

/// The ellipsis character used when shortening names.
pub const ELLIPSIS: char = '\u{2026}';

/// `s` shortened to at most `max` characters by replacing its middle with
/// an ellipsis (unchanged when it already fits).
pub open spec fn truncated_middle(s: Seq<char>, max: nat) -> Seq<char> {
    if s.len() <= max {
        s
    } else if max == 0 {
        Seq::empty()
    } else {
        let keep = (max - 1) as nat;
        let head = (keep + 1) / 2;
        let tail = keep / 2;
        s.take(head as int) + seq![ELLIPSIS] + s.skip(s.len() - tail)
    }
}

/// Shortens `s` to at most `max` characters, keeping its start and end.
pub fn truncate_middle(s: &str, max: usize) -> (r: String)
    ensures
        r@ == truncated_middle(s@, max as nat),
        r@.len() <= max,
        s@.len() <= max ==> r@ == s@,
{
    let cs = chars_of(s);
    let n = cs.len();
    if n <= max {
        return string_of(&cs);
    }
    if max == 0 {
        return String::new();
    }
    let keep = max - 1;
    let head = (keep + 1) / 2;
    let tail = keep / 2;
    let mut out: Vec<char> = Vec::new();
    let mut i: usize = 0;
    while i < head
        invariant
            i <= head < n == cs@.len(),
            out@ == cs@.take(i as int),
        decreases head - i,
    {
        out.push(cs[i]);
        i = i + 1;
        assert(out@ =~= cs@.take(i as int));
    }
    out.push(ELLIPSIS);
    let mut j: usize = n - tail;
    let ghost base = out@;
    while j < n
        invariant
            tail <= n,
            n - tail <= j <= n == cs@.len(),
            out@ == base + cs@.subrange(n - tail, j as int),
        decreases n - j,
    {
        out.push(cs[j]);
        j = j + 1;
        assert(out@ =~= base + cs@.subrange(n - tail, j as int));
    }
    assert(out@ =~= truncated_middle(s@, max as nat));
    string_of(&out)
}

/// Reaching the configured folder means entering every segment in turn by the
/// first folder of that name in the listing of the folder reached, passing
/// `enter_dir` that folder's object id and name; a walk that stops does so at
/// the first segment whose listing failed, held no such folder, or whose
/// `enter_dir` call with that id and name was refused, and names the
/// segments entered before it.
pub proof fn law_walk_enters_by_listed_id<B: DeviceBackend>(
    device_dir: Seq<char>,
    log: Seq<WalkStep>,
    w: Option<String>,
    states: Seq<B>,
    listings: Seq<Result<Vec<DeviceEntry>, String>>,
)
    requires
        walk_outcome(device_dir, path_segments(device_dir), log, w),
        walk_calls(path_segments(device_dir), log, states, listings),
    ensures
        ({
            let segs = path_segments(device_dir);
            &&& w is None ==> log.len() == segs.len() && forall|k: int| 0 <= k < segs.len() ==> ({
                let es = listings[k]->Ok_0@;
                &&& #[trigger] listings[k] is Ok
                &&& exists|p: int| is_first_directory_named(es, segs[k], p)
                    && entered_dir(states[k], es[p].id@, es[p].name@, Ok(()))
            })
            &&& w is Some ==> log.len() > 0 && ({
                let k = log.len() - 1;
                let es = listings[k]->Ok_0@;
                &&& w->Some_0@ == device_dir_warning_text(device_dir, segs.take(k))
                &&& forall|j: int| 0 <= j < k ==> log[j] == WalkStep::Entered
                &&& (listings[k] is Err
                    || (listings[k] is Ok && !has_directory_named(es, segs[k]))
                    || (listings[k] is Ok && exists|p: int, e: String| is_first_directory_named(es, segs[k], p)
                        && entered_dir(states[k], es[p].id@, es[p].name@, Err(e))))
            })
        }),
{
    let segs = path_segments(device_dir);
    if w is None {
        assert forall|k: int| 0 <= k < segs.len() implies ({
            let es = listings[k]->Ok_0@;
            &&& #[trigger] listings[k] is Ok
            &&& exists|p: int| is_first_directory_named(es, segs[k], p)
                && entered_dir(states[k], es[p].id@, es[p].name@, Ok(()))
        }) by {
            assert(step_calls(segs[k], log[k], states[k], listings[k]));
            assert(log[k] == WalkStep::Entered);
        }
    } else {
        let k = log.len() - 1;
        assert(step_calls(segs[k], log[k], states[k], listings[k]));
    }
}

} // verus!
