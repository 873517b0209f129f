//! Writing a file in two moves: the content is staged in a scratch folder
//! inside the destination folder and then renamed into place, so that the
//! file is never seen half written.

use vstd::prelude::*;
use vstd::string::StringExecFns;
use crate::naming::{staged_name, staged_name_of};

verus! {

/// The move at which a staged write failed.
#[derive(Clone, Copy, Debug, PartialEq, Eq, Structural)]
pub enum WriteFailure {
    /// The destination folder could not be made.
    Directory,
    /// The scratch folder could not be made inside it.
    Scratch,
    /// The content could not be written to the staged file.
    Stage,
    /// The staged file could not be renamed into place.
    Rename,
}

/// What a staged write does next.
#[derive(Debug, PartialEq, Eq)]
pub enum WriteStep {
    /// Make the destination folder, with the folders above it.
    MakeDir,
    /// Make a scratch folder inside the destination folder.
    MakeScratch,
    /// Write the content to this file in the scratch folder.
    Stage { staged: String },
    /// Rename the staged file onto the file `name` of the destination folder.
    Promote { staged: String, name: String },
    /// Nothing but to remove the scratch folder, if one was made.
    Done(Result<(), WriteFailure>),
}

pub enum WriteStepView {
    MakeDir,
    MakeScratch,
    Stage(Seq<char>),
    Promote(Seq<char>, Seq<char>),
    Done(Result<(), WriteFailure>),
}

impl View for WriteStep {
    type V = WriteStepView;

    open spec fn view(&self) -> WriteStepView {
        match self {
            WriteStep::MakeDir => WriteStepView::MakeDir,
            WriteStep::MakeScratch => WriteStepView::MakeScratch,
            WriteStep::Stage { staged } => WriteStepView::Stage(staged@),
            WriteStep::Promote { staged, name } => WriteStepView::Promote(staged@, name@),
            WriteStep::Done(result) => WriteStepView::Done(*result),
        }
    }
}

/// The step after `step` was tried for the file `name`. A move that fails
/// ends the write with the failure of that move; one that succeeds leads to
/// the next, and the rename is the last.
pub open spec fn after_move(step: WriteStepView, name: Seq<char>, ok: bool) -> WriteStepView {
    match step {
        WriteStepView::MakeDir => if ok {
            WriteStepView::MakeScratch
        } else {
            WriteStepView::Done(Err(WriteFailure::Directory))
        },
        WriteStepView::MakeScratch => if ok {
            WriteStepView::Stage(staged_name_of(name))
        } else {
            WriteStepView::Done(Err(WriteFailure::Scratch))
        },
        WriteStepView::Stage(staged) => if ok {
            WriteStepView::Promote(staged, name)
        } else {
            WriteStepView::Done(Err(WriteFailure::Stage))
        },
        WriteStepView::Promote(_, _) => if ok {
            WriteStepView::Done(Ok(()))
        } else {
            WriteStepView::Done(Err(WriteFailure::Rename))
        },
        WriteStepView::Done(_) => step,
    }
}

/// The first step of a staged write.
pub fn begin_write() -> (step: WriteStep)
    ensures
        step@ == WriteStepView::MakeDir,
{
    WriteStep::MakeDir
}

impl WriteStep {
    /// Takes the report of the move that `self` asked for, in the write of
    /// the file `name`.
    pub fn moved(self, name: &str, ok: bool) -> (next: WriteStep)
        ensures
            next@ == after_move(self@, name@, ok),
    {
        match self {
            WriteStep::MakeDir => if ok {
                WriteStep::MakeScratch
            } else {
                WriteStep::Done(Err(WriteFailure::Directory))
            },
            WriteStep::MakeScratch => if ok {
                WriteStep::Stage { staged: staged_name(name) }
            } else {
                WriteStep::Done(Err(WriteFailure::Scratch))
            },
            WriteStep::Stage { staged } => if ok {
                WriteStep::Promote { staged, name: String::from_str(name) }
            } else {
                WriteStep::Done(Err(WriteFailure::Stage))
            },
            WriteStep::Promote { staged: _, name: _ } => if ok {
                WriteStep::Done(Ok(()))
            } else {
                WriteStep::Done(Err(WriteFailure::Rename))
            },
            WriteStep::Done(result) => WriteStep::Done(result),
        }
    }
}

/// The files of the destination folder and of the scratch folder, each by
/// its name. Without a scratch folder, `scratch` is empty.
pub struct Disk {
    pub dest: Map<Seq<char>, Seq<u8>>,
    pub scratch: Map<Seq<char>, Seq<u8>>,
}

/// What a write does to the disk, in pieces that happen wholly or not at all.
pub enum Effect {
    /// The staged file comes to hold `data`. A write lays its content down
    /// piece by piece, so `data` may be a part of the content only.
    Put { staged: Seq<char>, data: Seq<u8> },
    /// The staged file becomes the file `name` of the destination folder.
    Rename { staged: Seq<char>, name: Seq<char> },
    /// The scratch folder goes, with all that is in it.
    Discard,
}

/// The disk after `effect`.
pub open spec fn apply(disk: Disk, effect: Effect) -> Disk {
    match effect {
        Effect::Put { staged, data } => Disk { scratch: disk.scratch.insert(staged, data), ..disk },
        Effect::Rename { staged, name } => if disk.scratch.dom().contains(staged) {
            Disk {
                dest: disk.dest.insert(name, disk.scratch[staged]),
                scratch: disk.scratch.remove(staged),
            }
        } else {
            disk
        },
        Effect::Discard => Disk { scratch: Map::empty(), ..disk },
    }
}

/// The disk after the first `n` of `effects`.
pub open spec fn apply_first(disk: Disk, effects: Seq<Effect>, n: nat) -> Disk
    decreases n,
{
    if n == 0 {
        disk
    } else {
        apply(apply_first(disk, effects, (n - 1) as nat), effects[n - 1])
    }
}

/// The staged file laid down in `pieces` pieces: it is made empty, then
/// grows byte by byte.
pub open spec fn puts(staged: Seq<char>, content: Seq<u8>, pieces: nat) -> Seq<Effect> {
    Seq::new(pieces, |i: int| Effect::Put { staged, data: content.take(i) })
}

/// The effects of a staged write of `content` to the file `name`: the staged
/// file grows byte by byte to the whole content, is renamed into place, and
/// the scratch folder goes.
pub open spec fn staged_write(name: Seq<char>, content: Seq<u8>) -> Seq<Effect> {
    puts(staged_name_of(name), content, content.len() + 1) + seq![
        Effect::Rename { staged: staged_name_of(name), name },
        Effect::Discard,
    ]
}

/// The effects of a write that fails at the move `failure`. Before the
/// scratch folder is there nothing is laid down. A staging that fails has
/// laid down `pieces` pieces, and a rename that fails leaves the whole
/// staged file. In every case the scratch folder goes at the end, with the
/// staged file in it.
pub open spec fn failed_write(
    name: Seq<char>,
    content: Seq<u8>,
    failure: WriteFailure,
    pieces: nat,
) -> Seq<Effect> {
    match failure {
        WriteFailure::Directory => seq![Effect::Discard],
        WriteFailure::Scratch => seq![Effect::Discard],
        WriteFailure::Stage => puts(staged_name_of(name), content, pieces) + seq![Effect::Discard],
        WriteFailure::Rename => puts(staged_name_of(name), content, content.len() + 1) + seq![
            Effect::Discard,
        ],
    }
}

/// How the moves of one write go: which of them fails, if any, and how many
/// pieces a staging that fails has laid down.
pub struct Course {
    pub failure: Option<WriteFailure>,
    pub pieces: nat,
}

/// Whether the move that `step` asks for succeeds in the given course.
pub open spec fn succeeds(step: WriteStepView, course: Course) -> bool {
    match step {
        WriteStepView::MakeDir => course.failure != Some(WriteFailure::Directory),
        WriteStepView::MakeScratch => course.failure != Some(WriteFailure::Scratch),
        WriteStepView::Stage(_) => course.failure != Some(WriteFailure::Stage),
        WriteStepView::Promote(_, _) => course.failure != Some(WriteFailure::Rename),
        WriteStepView::Done(_) => true,
    }
}

/// What the move that `step` asks for does to the disk. Making the folders
/// touches no file; staging lays the content down in the staged file, in
/// part where it fails; the rename, where it succeeds, puts the staged file
/// in place; and at the end the scratch folder goes.
pub open spec fn effects_of(step: WriteStepView, content: Seq<u8>, course: Course) -> Seq<Effect> {
    match step {
        WriteStepView::MakeDir => seq![],
        WriteStepView::MakeScratch => seq![],
        WriteStepView::Stage(staged) => if succeeds(step, course) {
            puts(staged, content, content.len() + 1)
        } else {
            puts(staged, content, course.pieces)
        },
        WriteStepView::Promote(staged, name) => if succeeds(step, course) {
            seq![Effect::Rename { staged, name }]
        } else {
            seq![]
        },
        WriteStepView::Done(_) => seq![Effect::Discard],
    }
}

/// How many moves can still follow.
pub open spec fn moves_left(step: WriteStepView) -> nat {
    match step {
        WriteStepView::MakeDir => 4,
        WriteStepView::MakeScratch => 3,
        WriteStepView::Stage(_) => 2,
        WriteStepView::Promote(_, _) => 1,
        WriteStepView::Done(_) => 0,
    }
}

/// The step at which the write of the file `name` ends when it is taken up
/// at `step` and its moves go as `course` has it.
pub open spec fn end_of(step: WriteStepView, name: Seq<char>, course: Course) -> WriteStepView
    decreases moves_left(step),
{
    match step {
        WriteStepView::Done(_) => step,
        _ => end_of(after_move(step, name, succeeds(step, course)), name, course),
    }
}

/// All that the write of `content` to the file `name` does to the disk from
/// `step` on, its moves going as `course` has it.
pub open spec fn effects_from(
    step: WriteStepView,
    name: Seq<char>,
    content: Seq<u8>,
    course: Course,
) -> Seq<Effect>
    decreases moves_left(step),
{
    match step {
        WriteStepView::Done(_) => effects_of(step, content, course),
        _ => effects_of(step, content, course) + effects_from(
            after_move(step, name, succeeds(step, course)),
            name,
            content,
            course,
        ),
    }
}

/// The steps of a write whose moves all succeed end in success, and what
/// they do to the disk is the staged write.
pub proof fn lemma_steps_make_the_staged_write(name: Seq<char>, content: Seq<u8>, pieces: nat)
    ensures
        end_of(WriteStepView::MakeDir, name, Course { failure: None, pieces })
            == WriteStepView::Done(Ok(())),
        effects_from(WriteStepView::MakeDir, name, content, Course { failure: None, pieces })
            == staged_write(name, content),
{
    reveal_with_fuel(end_of, 5);
    reveal_with_fuel(effects_from, 5);
    assert(effects_from(WriteStepView::MakeDir, name, content, Course { failure: None, pieces })
        =~= staged_write(name, content));
}

/// The steps of a write one of whose moves fails end in that failure, and
/// what they do to the disk is the failed write: no move follows the one that
/// failed but the removal of the scratch folder.
pub proof fn lemma_steps_make_the_failed_write(
    name: Seq<char>,
    content: Seq<u8>,
    failure: WriteFailure,
    pieces: nat,
)
    ensures
        end_of(WriteStepView::MakeDir, name, Course { failure: Some(failure), pieces })
            == WriteStepView::Done(Err(failure)),
        effects_from(
            WriteStepView::MakeDir,
            name,
            content,
            Course { failure: Some(failure), pieces },
        ) == failed_write(name, content, failure, pieces),
{
    reveal_with_fuel(end_of, 5);
    reveal_with_fuel(effects_from, 5);
    assert(effects_from(
        WriteStepView::MakeDir,
        name,
        content,
        Course { failure: Some(failure), pieces },
    ) =~= failed_write(name, content, failure, pieces));
}

/// Effects other than a rename leave the destination folder as it is.
pub proof fn lemma_only_a_rename_reaches_the_destination(disk: Disk, effects: Seq<Effect>, n: nat)
    requires
        n <= effects.len(),
        forall|i: int| 0 <= i < n ==> !(#[trigger] effects[i] is Rename),
    ensures
        apply_first(disk, effects, n).dest == disk.dest,
    decreases n,
{
    if n > 0 {
        lemma_only_a_rename_reaches_the_destination(disk, effects, (n - 1) as nat);
        assert(!(effects[n - 1] is Rename));
    }
}

/// A write that fails, at whatever move and however far it came, leaves the
/// destination folder as it was at every moment, and once it has ended the
/// staged file is gone with the scratch folder.
pub proof fn lemma_failed_write_leaves_nothing(
    disk: Disk,
    name: Seq<char>,
    content: Seq<u8>,
    failure: WriteFailure,
    pieces: nat,
    n: nat,
)
    requires
        n <= failed_write(name, content, failure, pieces).len(),
    ensures
        apply_first(disk, failed_write(name, content, failure, pieces), n).dest == disk.dest,
        n == failed_write(name, content, failure, pieces).len() ==> apply_first(
            disk,
            failed_write(name, content, failure, pieces),
            n,
        ).scratch == Map::<Seq<char>, Seq<u8>>::empty(),
{
    let effects = failed_write(name, content, failure, pieces);
    lemma_only_a_rename_reaches_the_destination(disk, effects, n);
    if n == effects.len() {
        assert(effects[n - 1] == Effect::Discard);
    }
}

/// A write that is broken off, at whatever point, leaves the destination
/// folder either as it was or with the whole content in place: the file is
/// never there in part, and no other file of the folder is touched.
pub proof fn lemma_interrupted_write_is_safe(
    disk: Disk,
    name: Seq<char>,
    content: Seq<u8>,
    n: nat,
)
    requires
        n <= staged_write(name, content).len(),
    ensures
        ({
            let after = apply_first(disk, staged_write(name, content), n);
            after.dest == disk.dest || after.dest == disk.dest.insert(name, content)
        }),
        n <= content.len() + 1 ==> apply_first(disk, staged_write(name, content), n).dest
            == disk.dest,
        0 < n <= content.len() + 1 ==> apply_first(
            disk,
            staged_write(name, content),
            n,
        ).scratch.dom().contains(staged_name_of(name)) && apply_first(
            disk,
            staged_write(name, content),
            n,
        ).scratch[staged_name_of(name)] == content.take(n - 1),
        n >= content.len() + 2 ==> apply_first(disk, staged_write(name, content), n).dest
            == disk.dest.insert(name, content),
        n == content.len() + 3 ==> apply_first(disk, staged_write(name, content), n).scratch
            == Map::<Seq<char>, Seq<u8>>::empty(),
    decreases n,
{
    if n > 0 {
        lemma_interrupted_write_is_safe(disk, name, content, (n - 1) as nat);
        assert(content.take(content.len() as int) == content);
    }
}

/// A write that runs to its end leaves the content under its name, byte for
/// byte, leaves every other file of the destination folder as it was, and
/// leaves no staged file behind.
pub proof fn lemma_write_round_trip(disk: Disk, name: Seq<char>, content: Seq<u8>)
    ensures
        ({
            let effects = staged_write(name, content);
            let after = apply_first(disk, effects, effects.len());
            &&& after.dest.dom().contains(name)
            &&& after.dest[name] == content
            &&& forall|other: Seq<char>|
                other != name ==> (after.dest.dom().contains(other) <==> disk.dest.dom().contains(
                    other,
                )) && (disk.dest.dom().contains(other) ==> after.dest[other] == disk.dest[other])
            &&& after.scratch == Map::<Seq<char>, Seq<u8>>::empty()
        }),
{
    let effects = staged_write(name, content);
    lemma_interrupted_write_is_safe(disk, name, content, effects.len());
}

} // verus!
