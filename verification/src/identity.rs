//! Reading the evidence that identifies a process from its `/proc/<pid>/stat`
//! line, and its resident memory from `/proc/self/status`. The files are read
//! elsewhere; this module only interprets their text.

use vstd::prelude::*;
use vstd::string::*;

use crate::text::{chars_of, decimal, decimal_string, is_white_space, parse_unsigned, parsed_unsigned, white_space};

verus! {

/// The evidence that identifies a running process. It stays inside the
/// adapter: paths and process identifiers never reach a WebView.
#[derive(Clone, Debug)]
pub struct ProcessIdentity {
    pub executable: String,
    pub instance: String,
}

/// The index of the last `") "` in `line`, which ends the command name.
pub open spec fn last_name_end(line: Seq<char>) -> Option<int>
    decreases line.len(),
{
    if line.len() < 2 {
        None
    } else if line[line.len() - 2] == ')' && line[line.len() - 1] == ' ' {
        Some(line.len() - 2)
    } else {
        last_name_end(line.drop_last())
    }
}

/// The white-space separated words of `text`, as `str::split_whitespace`
/// yields them.
pub open spec fn words(text: Seq<char>) -> Seq<Seq<char>>
    decreases text.len(),
{
    if text.len() == 0 {
        Seq::empty()
    } else {
        let before = text.drop_last();
        let c = text.last();
        let earlier = words(before);
        if white_space(c) {
            earlier
        } else if before.len() > 0 && !white_space(before.last()) {
            earlier.update(earlier.len() - 1, earlier.last().push(c))
        } else {
            earlier.push(seq![c])
        }
    }
}

/// The parent process and start time (fields 4 and 22 of the stat line,
/// counting the fields after the command name from 3), when both parse.
pub open spec fn stat_fields_of(line: Seq<char>) -> Option<(u32, u64)> {
    match last_name_end(line) {
        None => None,
        Some(end) => {
            let fields = words(line.skip(end + 2));
            if fields.len() < 20 {
                None
            } else {
                match (parsed_unsigned(fields[1], u32::MAX as nat), parsed_unsigned(fields[19], u64::MAX as nat)) {
                    (Some(parent), Some(started)) => Some((parent as u32, started as u64)),
                    _ => None,
                }
            }
        }
    }
}

spec fn pending_words(done: Seq<Seq<char>>, current: Seq<char>) -> Seq<Seq<char>> {
    if current.len() > 0 {
        done.push(current)
    } else {
        done
    }
}

fn last_name_end_index(line: &Vec<char>) -> (end: Option<usize>)
    ensures
        last_name_end(line@) == match end {
            Some(i) => Some(i as int),
            None => None,
        },
        end matches Some(i) ==> i + 2 <= line@.len(),
{
    let mut length = line.len();
    assert(line@.take(length as int) =~= line@);
    loop
        invariant
            length <= line@.len(),
            last_name_end(line@) == last_name_end(line@.take(length as int)),
        decreases length,
    {
        if length < 2 {
            return None;
        }
        let ghost prefix = line@.take(length as int);
        if line[length - 2] == ')' && line[length - 1] == ' ' {
            return Some(length - 2);
        }
        assert(prefix.drop_last() =~= line@.take(length - 1));
        length = length - 1;
    }
}

fn split_words(chars: &Vec<char>, from: usize) -> (found: Vec<Vec<char>>)
    requires
        from <= chars@.len(),
    ensures
        found@.map_values(|word: Vec<char>| word@) == words(chars@.skip(from as int)),
{
    let ghost text = chars@.skip(from as int);
    let mut done: Vec<Vec<char>> = Vec::new();
    let mut current: Vec<char> = Vec::new();
    let mut index = from;
    while index < chars.len()
        invariant
            from <= index <= chars@.len(),
            text == chars@.skip(from as int),
            words(text.take(index - from)) == pending_words(
                done@.map_values(|word: Vec<char>| word@),
                current@,
            ),
            current@.len() > 0 <==> (index > from && !white_space(chars@[index - 1])),
        decreases chars@.len() - index,
    {
        let c = chars[index];
        let ghost before = text.take(index - from);
        let ghost done_view = done@.map_values(|word: Vec<char>| word@);
        let ghost current_view = current@;
        assert(text.take(index - from + 1).drop_last() =~= before);
        assert(text.take(index - from + 1).last() == c);
        if index > from {
            assert(before.last() == chars@[index - 1]);
        }
        if is_white_space(c) {
            if current.len() > 0 {
                done.push(current);
                current = Vec::new();
                assert(done@.map_values(|word: Vec<char>| word@) =~= done_view.push(current_view));
            }
        } else {
            let continues = current.len() > 0;
            current.push(c);
            if continues {
                let ghost earlier = done_view.push(current_view);
                assert(earlier.update(earlier.len() - 1, earlier.last().push(c)) =~= done_view.push(
                    current@,
                ));
            } else {
                assert(current@ =~= seq![c]);
            }
        }
        index = index + 1;
    }
    let ghost done_view = done@.map_values(|word: Vec<char>| word@);
    let ghost current_view = current@;
    if current.len() > 0 {
        done.push(current);
        assert(done@.map_values(|word: Vec<char>| word@) =~= done_view.push(current_view));
    }
    assert(text.take(chars@.len() - from) =~= text);
    done
}

/// The parent process and start time of a process, read from its stat line
/// after the command name, which may itself hold spaces and parentheses.
pub fn stat_fields(stat: &str) -> (fields: Option<(u32, u64)>)
    ensures
        fields == stat_fields_of(stat@),
{
    let chars = chars_of(stat);
    let total = chars.len();
    let end = match last_name_end_index(&chars) {
        Some(end) => end,
        None => return None,
    };
    assert(end + 2 <= total);
    assert(last_name_end(stat@) == Some(end as int));
    let found = split_words(&chars, end + 2);
    let ghost views = found@.map_values(|word: Vec<char>| word@);
    assert(views == words(stat@.skip(end + 2)));
    assert(views.len() == found@.len());
    if found.len() < 20 {
        return None;
    }
    assert(views[1] == found@[1]@ && views[19] == found@[19]@);
    let parent = match parse_unsigned(&found[1], 0, found[1].len(), u32::MAX as u64) {
        Some(parent) => parent,
        None => {
            assert(found@[1]@.subrange(0, found@[1]@.len() as int) =~= found@[1]@);
            return None;
        },
    };
    let started = match parse_unsigned(&found[19], 0, found[19].len(), u64::MAX) {
        Some(started) => started,
        None => {
            assert(found@[19]@.subrange(0, found@[19]@.len() as int) =~= found@[19]@);
            return None;
        },
    };
    assert(found@[1]@.subrange(0, found@[1]@.len() as int) =~= found@[1]@);
    assert(found@[19]@.subrange(0, found@[19]@.len() as int) =~= found@[19]@);
    Some((parent as u32, started))
}

/// The label that begins the resident-set line of a process status file.
pub open spec fn resident_label() -> Seq<char> {
    seq!['V', 'm', 'R', 'S', 'S', ':']
}

/// The resident bytes that one status line gives: a line that begins with
/// `VmRSS:` and whose first word after it is a count of kibibytes that still
/// fits in a `u64` once multiplied by 1024.
pub open spec fn resident_line_bytes(line: Seq<char>) -> Option<u64> {
    if line.len() >= 6 && line.take(6) == resident_label() {
        let fields = words(line.skip(6));
        if fields.len() > 0 {
            match parsed_unsigned(fields[0], u64::MAX as nat) {
                Some(kibibytes) => if kibibytes * 1024 <= u64::MAX {
                    Some((kibibytes * 1024) as u64)
                } else {
                    None
                },
                None => None,
            }
        } else {
            None
        }
    } else {
        None
    }
}

/// Where the line that begins at `start` ends: at the next `\n`, or at the
/// end of `text`.
pub open spec fn line_end(text: Seq<char>, start: int) -> int
    decreases text.len() - start,
{
    if start >= text.len() {
        text.len() as int
    } else if text[start] == '\n' {
        start
    } else {
        line_end(text, start + 1)
    }
}

/// The resident bytes of the first line, from the one that begins at
/// `start` on, that gives them.
pub open spec fn resident_bytes_from(text: Seq<char>, start: int) -> Option<u64>
    decreases text.len() - start,
{
    if start < 0 || start > text.len() {
        None
    } else {
        let end = line_end(text, start);
        if end < start {
            None
        } else {
            match resident_line_bytes(text.subrange(start, end)) {
                Some(bytes) => Some(bytes),
                None => if end < text.len() {
                    resident_bytes_from(text, end + 1)
                } else {
                    None
                },
            }
        }
    }
}

proof fn line_end_bounds(text: Seq<char>, start: int)
    requires
        0 <= start <= text.len(),
    ensures
        start <= line_end(text, start) <= text.len(),
        line_end(text, start) < text.len() ==> text[line_end(text, start)] == '\n',
    decreases text.len() - start,
{
    if start < text.len() && text[start] != '\n' {
        line_end_bounds(text, start + 1);
    }
}

fn resident_line_value(line: &Vec<char>) -> (bytes: Option<u64>)
    ensures
        bytes == resident_line_bytes(line@),
{
    if line.len() < 6 {
        return None;
    }
    if !(line[0] == 'V' && line[1] == 'm' && line[2] == 'R' && line[3] == 'S' && line[4] == 'S'
        && line[5] == ':') {
        proof {
            if line@.take(6) == resident_label() {
                assert(line@.take(6)[0] == 'V' && line@.take(6)[1] == 'm' && line@.take(6)[2] == 'R');
                assert(line@.take(6)[3] == 'S' && line@.take(6)[4] == 'S' && line@.take(6)[5] == ':');
            }
        }
        return None;
    }
    assert(line@.take(6) =~= resident_label());
    let found = split_words(line, 6);
    let ghost views = found@.map_values(|word: Vec<char>| word@);
    assert(views == words(line@.skip(6)));
    assert(views.len() == found@.len());
    if found.len() == 0 {
        return None;
    }
    assert(views[0] == found@[0]@);
    assert(found@[0]@.subrange(0, found@[0]@.len() as int) =~= found@[0]@);
    match parse_unsigned(&found[0], 0, found[0].len(), u64::MAX) {
        Some(kibibytes) => kibibytes.checked_mul(1024),
        None => None,
    }
}

/// The resident memory of a process, in bytes, as its `/proc/<pid>/status`
/// text gives it on the first `VmRSS:` line that can be read.
pub fn resident_bytes_in_status(status: &str) -> (bytes: Option<u64>)
    ensures
        bytes == resident_bytes_from(status@, 0),
{
    let chars = chars_of(status);
    let total = chars.len();
    let mut start: usize = 0;
    loop
        invariant
            chars@ == status@,
            total == chars@.len(),
            start <= total,
            resident_bytes_from(status@, 0) == resident_bytes_from(status@, start as int),
        decreases total - start,
    {
        let mut end = start;
        while end < total && chars[end] != '\n'
            invariant
                chars@ == status@,
                total == chars@.len(),
                start <= end <= total,
                line_end(status@, start as int) == line_end(status@, end as int),
            decreases total - end,
        {
            end = end + 1;
        }
        proof {
            line_end_bounds(status@, start as int);
        }
        assert(line_end(status@, start as int) == end as int);
        let mut line: Vec<char> = Vec::new();
        let mut index = start;
        while index < end
            invariant
                start <= index <= end <= total,
                total == chars@.len(),
                line@ == chars@.subrange(start as int, index as int),
            decreases end - index,
        {
            line.push(chars[index]);
            index = index + 1;
            assert(line@ =~= chars@.subrange(start as int, index as int));
        }
        let value = resident_line_value(&line);
        if value.is_some() {
            return value;
        }
        if end >= total {
            return None;
        }
        start = end + 1;
    }
}

/// The evidence of a process read twice: kept only when both reads agree,
/// so that a process that exited, or whose number was reused, while it was
/// read is not mistaken for another.
pub fn stable_stat_fields(first: &str, second: &str) -> (fields: Option<(u32, u64)>)
    ensures
        fields == match (stat_fields_of(first@), stat_fields_of(second@)) {
            (Some(a), Some(b)) => if a == b {
                Some(a)
            } else {
                None
            },
            _ => None,
        },
{
    let a = stat_fields(first)?;
    let b = stat_fields(second)?;
    if a.0 == b.0 && a.1 == b.1 {
        Some(a)
    } else {
        None
    }
}

/// The most ancestors walked when looking for a process's application root.
pub const MAX_ANCESTORS: u32 = 64;

/// What was read of an ancestor: its parent, its start time, and whether it
/// runs the same executable as the process the walk began from.
#[derive(Clone, Copy, Debug, PartialEq, Eq, Structural)]
pub struct Ancestor {
    pub parent: u32,
    pub started: u64,
    pub same_executable: bool,
}

/// The walk from a process up through its ancestors to its application
/// root: browser and electron audio children share their executable with
/// the root, while an unrelated parent shell does not merge applications.
#[derive(Clone, Copy, Debug, PartialEq, Eq, Structural)]
pub struct AncestryWalk {
    /// The process that names the instance so far.
    pub instance_pid: u32,
    /// That process's start time.
    pub instance_started: u64,
    /// The ancestor to read next.
    pub parent: u32,
    /// How many ancestors have been read.
    pub steps: u32,
    /// Whether the walk has ended.
    pub done: bool,
}

/// Whether a walk that reached `parent` after `steps` ancestors, with the
/// instance `instance`, still has an ancestor to read.
pub open spec fn walk_continues(instance_pid: u32, parent: u32, steps: u32) -> bool {
    steps < MAX_ANCESTORS && parent > 1 && parent != instance_pid
}

/// The walk after reading the next ancestor, or failing to.
pub open spec fn walk_after(walk: AncestryWalk, ancestor: Option<Ancestor>) -> AncestryWalk {
    match ancestor {
        None => AncestryWalk { done: true, ..walk },
        Some(found) => {
            let (instance_pid, instance_started) = if found.same_executable {
                (walk.parent, found.started)
            } else {
                (walk.instance_pid, walk.instance_started)
            };
            let steps = (walk.steps + 1) as u32;
            if found.parent == walk.parent {
                AncestryWalk { instance_pid, instance_started, parent: walk.parent, steps, done: true }
            } else {
                AncestryWalk {
                    instance_pid,
                    instance_started,
                    parent: found.parent,
                    steps,
                    done: !walk_continues(instance_pid, found.parent, steps),
                }
            }
        },
    }
}

impl AncestryWalk {
    /// A walk from process `pid`, started at `started`, whose parent is
    /// `parent`.
    pub fn start(pid: u32, started: u64, parent: u32) -> (walk: Self)
        ensures
            walk.instance_pid == pid,
            walk.instance_started == started,
            walk.parent == parent,
            walk.steps == 0,
            walk.done == !walk_continues(pid, parent, 0),
    {
        AncestryWalk {
            instance_pid: pid,
            instance_started: started,
            parent,
            steps: 0,
            done: !(parent > 1 && parent != pid),
        }
    }

    /// The ancestor to read next, unless the walk has ended.
    pub fn next(&self) -> (pid: Option<u32>)
        ensures
            pid == if self.done {
                None
            } else {
                Some(self.parent)
            },
    {
        if self.done {
            None
        } else {
            Some(self.parent)
        }
    }

    /// Takes in what was read of the ancestor `next` named: the walk ends
    /// when it could not be read, when it is its own parent, after
    /// `MAX_ANCESTORS` ancestors, or at the first process or the instance.
    pub fn observe(&mut self, ancestor: Option<Ancestor>)
        requires
            !old(self).done,
            old(self).steps < MAX_ANCESTORS,
        ensures
            *final(self) == walk_after(*old(self), ancestor),
            final(self).steps <= MAX_ANCESTORS,
    {
        match ancestor {
            None => {
                self.done = true;
            },
            Some(found) => {
                if found.same_executable {
                    self.instance_pid = self.parent;
                    self.instance_started = found.started;
                }
                self.steps = self.steps + 1;
                if found.parent == self.parent {
                    self.done = true;
                } else {
                    self.parent = found.parent;
                    self.done = !(self.steps < MAX_ANCESTORS && self.parent > 1 && self.parent
                        != self.instance_pid);
                }
            },
        }
    }

    /// The identity of the process: its executable, and the instance the
    /// walk settled on, written `pid:started`.
    pub fn identity(&self, executable: String) -> (identity: ProcessIdentity)
        ensures
            identity.executable@ == executable@,
            identity.instance@ == decimal(self.instance_pid as nat) + ":"@ + decimal(
                self.instance_started as nat,
            ),
    {
        let mut instance = decimal_string(self.instance_pid as u64);
        instance.append(":");
        instance.append(decimal_string(self.instance_started).as_str());
        ProcessIdentity { executable, instance }
    }
}

/// A walk that has not ended has read fewer than `MAX_ANCESTORS` ancestors,
/// so each walk reads at most that many.
pub proof fn walks_are_bounded(walk: AncestryWalk, ancestor: Option<Ancestor>)
    requires
        !walk.done,
        walk.steps < MAX_ANCESTORS,
    ensures
        walk_after(walk, ancestor).steps <= MAX_ANCESTORS,
        walk_after(walk, ancestor).steps == MAX_ANCESTORS ==> walk_after(walk, ancestor).done,
        !walk_after(walk, ancestor).done ==> walk_after(walk, ancestor).steps < MAX_ANCESTORS
            && walk_after(walk, ancestor).steps == walk.steps + 1,
{
}

} // verus!
