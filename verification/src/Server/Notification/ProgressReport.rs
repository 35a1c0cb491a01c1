//! `progress.report`: one progress tick; busy extensions send thousands.
//!
//! Each report is queued. Once per frame the queue is drained and merged per
//! progress handle (the latest non-empty message wins, the increments are
//! summed), and one `sky://notification/progress-update` is emitted per handle.

use vstd::prelude::*;
use vstd::string::*;

use crate::Host::{HostAction, HostActionV, One, actions_view};
use crate::Json::{FieldText, Json, JsonV, text_field};
use crate::Strings::StrEq;

verus! {

/// Handles `progress.report`: the report's handle and message are queued (the
/// embedder reads its fractional `increment` itself).
pub fn ProgressReport(Parameter: &Json) -> (r: Vec<HostAction>)
    ensures
        actions_view(r@) == seq![
            HostActionV::QueueProgress {
                progress_handle: text_field(Parameter@, "handle"@),
                message: text_field(Parameter@, "message"@),
            },
        ],
{
    One(
        HostAction::QueueProgress {
            ProgressHandle: String::from_str(FieldText(Parameter, "handle")),
            Message: String::from_str(FieldText(Parameter, "message")),
        },
    )
}

/// One queued report: its progress handle and message.
pub struct QueuedProgress {
    pub ProgressHandle: String,
    pub Message: String,
}

/// The reports of one frame merged per handle. Handle `Handles[g]` carries the
/// message `Messages[g]`; report `i` belongs to handle `Group[i]`, so its
/// increment counts towards that handle's sum.
pub struct MergedProgress {
    pub Handles: Vec<String>,
    pub Messages: Vec<String>,
    pub Group: Vec<usize>,
}

/// The texts of a list of strings.
pub open spec fn strings_view(s: Seq<String>) -> Seq<Seq<char>> {
    s.map_values(|x: String| x@)
}

/// The handles of the queued reports, in queue order.
pub open spec fn queued_handles(items: Seq<QueuedProgress>) -> Seq<Seq<char>> {
    items.map_values(|q: QueuedProgress| q.ProgressHandle@)
}

/// The message that handle `h` ends with after the reports `items`: the
/// latest non-empty one, or the empty text.
pub open spec fn merged_message(items: Seq<QueuedProgress>, h: Seq<char>) -> Seq<char>
    decreases items.len(),
{
    if items.len() == 0 {
        Seq::empty()
    } else {
        let last = items[items.len() - 1];
        if last.ProgressHandle@ == h && last.Message@.len() > 0 {
            last.Message@
        } else {
            merged_message(items.subrange(0, items.len() - 1), h)
        }
    }
}

/// `m` merges the reports `items` (see [`MergedProgress`]): the handles are
/// distinct and in order of first appearance, every report belongs to the
/// handle it names, and each handle's message is [`merged_message`].
pub open spec fn merges(items: Seq<QueuedProgress>, handles: Seq<Seq<char>>, messages: Seq<Seq<char>>, group: Seq<usize>) -> bool {
    &&& handles.len() == messages.len()
    &&& group.len() == items.len()
    &&& forall|a: int, b: int| 0 <= a < b < handles.len() ==> handles[a] != handles[b]
    &&& forall|i: int|
        0 <= i < items.len() ==> #[trigger] group[i] < handles.len() && handles[group[i] as int]
            == items[i].ProgressHandle@
    &&& forall|g: int| 0 <= g < handles.len() ==> #[trigger] group_used(group, g)
    &&& forall|g: int| 0 <= g < handles.len() ==> #[trigger] messages[g] == merged_message(items, handles[g])
}

/// Some report belongs to handle `g`.
pub open spec fn group_used(group: Seq<usize>, g: int) -> bool {
    exists|i: int| 0 <= i < group.len() && #[trigger] group[i] == g
}

/// The position of `h` among `handles`, if it is there.
fn FindHandle(handles: &Vec<String>, h: &String) -> (r: Option<usize>)
    ensures
        match r {
            Some(g) => g < handles@.len() && handles@[g as int]@ == h@,
            None => forall|g: int| 0 <= g < handles@.len() ==> handles@[g]@ != h@,
        },
{
    let mut g: usize = 0;
    while g < handles.len()
        invariant
            0 <= g <= handles@.len(),
            forall|k: int| 0 <= k < g ==> handles@[k]@ != h@,
        decreases handles.len() - g,
    {
        if handles[g] == *h {
            return Some(g);
        }
        g += 1;
    }
    None
}

proof fn lemma_merged_message_step(items: Seq<QueuedProgress>, i: int, h: Seq<char>)
    requires
        0 <= i < items.len(),
    ensures
        merged_message(items.subrange(0, i + 1), h) == (if items[i].ProgressHandle@ == h
            && items[i].Message@.len() > 0 {
            items[i].Message@
        } else {
            merged_message(items.subrange(0, i), h)
        }),
{
    assert(items.subrange(0, i + 1).subrange(0, i) =~= items.subrange(0, i));
}

/// Merges one frame's queued reports per handle (see [`merges`]).
pub fn MergeProgress(Items: &Vec<QueuedProgress>) -> (r: MergedProgress)
    ensures
        merges(
            Items@,
            strings_view(r.Handles@),
            strings_view(r.Messages@),
            r.Group@,
        ),
{
    let mut Handles: Vec<String> = Vec::new();
    let mut Messages: Vec<String> = Vec::new();
    let mut Group: Vec<usize> = Vec::new();
    let mut i: usize = 0;
    let ghost mut First: Seq<int> = Seq::empty();
    while i < Items.len()
        invariant
            0 <= i <= Items@.len(),
            Handles@.len() == Messages@.len(),
            Group@.len() == i,
            forall|a: int, b: int| 0 <= a < b < Handles@.len() ==> Handles@[a]@ != Handles@[b]@,
            forall|k: int|
                0 <= k < i ==> #[trigger] Group@[k] < Handles@.len() && Handles@[Group@[k] as int]@
                    == Items@[k].ProgressHandle@,
            First.len() == Handles@.len(),
            forall|g: int|
                0 <= g < Handles@.len() ==> 0 <= #[trigger] First[g] < i && Group@[First[g]] == g,
            forall|g: int|
                0 <= g < Handles@.len() ==> #[trigger] Messages@[g]@ == merged_message(
                    Items@.subrange(0, i as int),
                    Handles@[g]@,
                ),
            forall|h: Seq<char>|
                (forall|g: int| 0 <= g < Handles@.len() ==> Handles@[g]@ != h) ==> #[trigger] merged_message(
                    Items@.subrange(0, i as int),
                    h,
                ) == Seq::<char>::empty(),
        decreases Items.len() - i,
    {
        let ghost prev_handles = Handles@;
        let ghost prev_messages = Messages@;
        let ghost prev_group = Group@;
        let Item = &Items[i];
        proof {
            assert forall|h: Seq<char>| #![auto] true implies merged_message(Items@.subrange(0, i + 1), h)
                == (if Items@[i as int].ProgressHandle@ == h && Items@[i as int].Message@.len() > 0 {
                Items@[i as int].Message@
            } else {
                merged_message(Items@.subrange(0, i as int), h)
            }) by {
                lemma_merged_message_step(Items@, i as int, h);
            }
        }
        match FindHandle(&Handles, &Item.ProgressHandle) {
            Some(g) => {
                if Item.Message.as_str().unicode_len() > 0 {
                    Messages.set(g, Item.Message.clone());
                }
                Group.push(g);
                assert(Group@[i as int] == g);
            },
            None => {
                let g = Handles.len();
                proof {
                    First = First.push(i as int);
                }
                Handles.push(Item.ProgressHandle.clone());
                Messages.push(Item.Message.clone());
                Group.push(g);
                assert(Group@[i as int] == g);
                proof {
                    if Item.Message@.len() == 0 {
                        assert(merged_message(Items@.subrange(0, i as int), Item.ProgressHandle@)
                            == Seq::<char>::empty());
                    }
                }
            },
        }
        proof {
            assert forall|g: int| 0 <= g < Handles@.len() implies 0 <= #[trigger] First[g] < i + 1 && Group@[First[g]] == g by {
                if g < prev_handles.len() {
                    assert(Group@[First[g]] == prev_group[First[g]]);
                }
            }
        }
        proof {
            assert forall|h: Seq<char>|
                (forall|g: int| 0 <= g < Handles@.len() ==> Handles@[g]@ != h) implies #[trigger] merged_message(
                Items@.subrange(0, i + 1),
                h,
            ) == Seq::<char>::empty() by {
                lemma_merged_message_step(Items@, i as int, h);
                assert(Handles@[Group@[i as int] as int]@ == Items@[i as int].ProgressHandle@);
                assert forall|g: int| 0 <= g < prev_handles.len() implies prev_handles[g]@ != h by {
                    assert(Handles@[g] == prev_handles[g]);
                }
            }
        }
        i += 1;
    }
    proof {
        assert(Items@.subrange(0, i as int) =~= Items@);
        let hv = strings_view(Handles@);
        let mv = strings_view(Messages@);
        assert forall|g: int| 0 <= g < hv.len() implies #[trigger] group_used(Group@, g) by {
            assert(Group@[First[g]] == g);
        }
        assert forall|a: int, b: int| 0 <= a < b < hv.len() implies hv[a] != hv[b] by {
            assert(Handles@[a]@ != Handles@[b]@);
        }
        assert forall|k: int| 0 <= k < Items@.len() implies #[trigger] Group@[k] < hv.len() && hv[Group@[k] as int]
            == Items@[k].ProgressHandle@ by {
            assert(Group@[k] < Handles@.len());
        }
        assert(hv.len() == mv.len());
        assert(Group@.len() == Items@.len());
        assert forall|g: int| 0 <= g < hv.len() implies #[trigger] mv[g] == merged_message(Items@, hv[g]) by {
            assert(Messages@[g]@ == merged_message(Items@.subrange(0, i as int), Handles@[g]@));
        }
        assert(merges(Items@, hv, mv, Group@));
    }
    MergedProgress { Handles, Messages, Group }
}

} // verus!
