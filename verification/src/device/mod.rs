//! Logical devices: validation of the queues a device is created with, and the
//! queues it then hands out.

use vstd::prelude::*;

pub mod error;

use error::DeviceError;

verus! {

/// The queue part of a device create info: `queue_count` queues of one family.
#[derive(Clone, Copy, Debug, PartialEq, Eq, Structural)]
pub struct DeviceQueueCreateInfo {
    /// Raw `vk::DeviceQueueCreateFlags` bits.
    pub flags: u32,
    pub queue_family_index: u32,
    /// The number of queues, which is the number of priorities given.
    pub queue_count: u32,
}

/// One queue a device was created with.
#[derive(Clone, Copy, Debug, PartialEq, Eq, Structural)]
pub struct CreatedQueue {
    /// Raw `vk::DeviceQueueCreateFlags` bits the queue was created with.
    pub flags: u32,
    pub queue_family_index: u32,
    /// Index of the queue within its family.
    pub queue_index: u32,
}

/// The queues of one create info, in index order.
pub open spec fn queues_of(info: DeviceQueueCreateInfo) -> Seq<CreatedQueue> {
    Seq::new(
        info.queue_count as nat,
        |i: int|
            CreatedQueue {
                flags: info.flags,
                queue_family_index: info.queue_family_index,
                queue_index: i as u32,
            },
    )
}

/// The queues a device created from `infos` has: for each create info in order,
/// its queues in index order.
pub open spec fn created_queues(infos: Seq<DeviceQueueCreateInfo>) -> Seq<CreatedQueue>
    decreases infos.len(),
{
    if infos.len() == 0 {
        seq![]
    } else {
        created_queues(infos.drop_last()) + queues_of(infos.last())
    }
}

/// The total number of queues requested by `infos`.
pub open spec fn total_queue_count(infos: Seq<DeviceQueueCreateInfo>) -> nat
    decreases infos.len(),
{
    if infos.len() == 0 {
        0
    } else {
        total_queue_count(infos.drop_last()) + infos.last().queue_count as nat
    }
}

/// The check that creating a device with `infos` passes: `Ok` when there is at least
/// one create info and each asks for at least one queue.
pub open spec fn spec_validate_queue_create_infos(infos: Seq<DeviceQueueCreateInfo>) -> Result<(), DeviceError> {
    if infos.len() == 0 {
        Err(DeviceError::QueuesEmpty)
    } else if exists|i: int| 0 <= i < infos.len() && infos[i].queue_count == 0 {
        Err(DeviceError::QueuePrioritiesEmpty)
    } else {
        Ok(())
    }
}

/// Checks the queue create infos a device is about to be created with: there must be
/// at least one, and each must have at least one queue priority.
pub fn validate_queue_create_infos(infos: &[DeviceQueueCreateInfo]) -> (r: Result<(), DeviceError>)
    ensures
        r == spec_validate_queue_create_infos(infos@),
        infos@.len() == 0 ==> r == Err::<(), DeviceError>(DeviceError::QueuesEmpty),
        infos@.len() > 0 && (exists|i: int| 0 <= i < infos@.len() && #[trigger] infos@[i].queue_count == 0)
            ==> r == Err::<(), DeviceError>(DeviceError::QueuePrioritiesEmpty),
        r is Ok <==> (infos@.len() > 0 && forall|i: int| 0 <= i < infos@.len() ==> #[trigger] infos@[i].queue_count > 0),
{
    if infos.len() == 0 {
        return Err(DeviceError::QueuesEmpty);
    }
    let mut i: usize = 0;
    while i < infos.len()
        invariant
            i <= infos@.len(),
            forall|j: int| 0 <= j < i ==> infos@[j].queue_count != 0,
        decreases infos.len() - i,
    {
        if infos[i].queue_count == 0 {
            return Err(DeviceError::QueuePrioritiesEmpty);
        }
        i = i + 1;
    }
    Ok(())
}

/// Lists the queues that a device created with `infos` has, in the order the
/// create infos name them and, within one, by queue index.
pub fn get_created_queues(infos: &[DeviceQueueCreateInfo]) -> (r: Vec<CreatedQueue>)
    ensures
        r@ == created_queues(infos@),
{
    let mut result: Vec<CreatedQueue> = Vec::new();
    let mut family: usize = 0;
    proof {
        assert(infos@.take(0) =~= Seq::<DeviceQueueCreateInfo>::empty());
    }
    while family < infos.len()
        invariant
            family <= infos@.len(),
            result@ == created_queues(infos@.take(family as int)),
        decreases infos.len() - family,
    {
        let info = infos[family];
        let ghost before = result@;
        let mut index: u32 = 0;
        while index < info.queue_count
            invariant
                index <= info.queue_count,
                result@ == before + queues_of(info).take(index as int),
            decreases info.queue_count - index,
        {
            result.push(
                CreatedQueue {
                    flags: info.flags,
                    queue_family_index: info.queue_family_index,
                    queue_index: index,
                },
            );
            proof {
                assert(queues_of(info).take(index as int + 1) =~= queues_of(info).take(index as int).push(
                    queues_of(info)[index as int],
                ));
            }
            index = index + 1;
        }
        proof {
            assert(queues_of(info).take(info.queue_count as int) =~= queues_of(info));
            assert(infos@.take(family as int + 1).drop_last() =~= infos@.take(family as int));
            assert(infos@.take(family as int + 1).last() == info);
        }
        family = family + 1;
    }
    proof {
        assert(infos@.take(infos@.len() as int) =~= infos@);
    }
    result
}

/// Validation accepts exactly the non-empty lists in which every create info asks for
/// at least one queue; an empty list is refused as `QueuesEmpty`, and a list with a
/// create info of no queues, wherever it stands, as `QueuePrioritiesEmpty`.
pub proof fn lemma_validation_outcome(infos: Seq<DeviceQueueCreateInfo>, k: int)
    ensures
        infos.len() == 0 ==> spec_validate_queue_create_infos(infos) == Err::<(), DeviceError>(
            DeviceError::QueuesEmpty,
        ),
        0 <= k < infos.len() && infos[k].queue_count == 0 ==> spec_validate_queue_create_infos(infos)
            == Err::<(), DeviceError>(DeviceError::QueuePrioritiesEmpty),
        spec_validate_queue_create_infos(infos) is Ok <==> (infos.len() > 0 && forall|i: int|
            0 <= i < infos.len() ==> #[trigger] infos[i].queue_count > 0),
{
}

/// A device has one queue per priority given: as many queues as all its queue create
/// infos ask for together.
pub proof fn lemma_created_queue_count(infos: Seq<DeviceQueueCreateInfo>)
    ensures
        created_queues(infos).len() == total_queue_count(infos),
    decreases infos.len(),
{
    if infos.len() > 0 {
        lemma_created_queue_count(infos.drop_last());
    }
}

/// Every queue a device is created with comes from one of its create infos, with a
/// queue index below that create info's queue count.
pub proof fn lemma_created_queue_origin(infos: Seq<DeviceQueueCreateInfo>, k: int)
    requires
        0 <= k < created_queues(infos).len(),
    ensures
        exists|i: int|
            0 <= i < infos.len() && created_queues(infos)[k].queue_family_index
                == infos[i].queue_family_index && created_queues(infos)[k].flags == infos[i].flags
                && created_queues(infos)[k].queue_index < infos[i].queue_count,
    decreases infos.len(),
{
    let prefix = created_queues(infos.drop_last());
    if k < prefix.len() {
        lemma_created_queue_origin(infos.drop_last(), k);
        let i = choose|i: int|
            0 <= i < infos.drop_last().len() && prefix[k].queue_family_index
                == infos.drop_last()[i].queue_family_index && prefix[k].flags == infos.drop_last()[i].flags
                && prefix[k].queue_index < infos.drop_last()[i].queue_count;
        assert(infos[i] == infos.drop_last()[i]);
    } else {
        let last = infos.len() - 1;
        assert(infos[last] == infos.last());
    }
}

/// The queues of create info `i` follow those of the create infos before it, in
/// index order: queue `j` of it (for `j` below its queue count) stands right after
/// the queues of the earlier create infos, with that create info's family and flags
/// and queue index `j`.
pub proof fn lemma_created_queue_position(infos: Seq<DeviceQueueCreateInfo>, i: int, j: int)
    requires
        0 <= i < infos.len(),
        0 <= j < infos[i].queue_count,
    ensures
        total_queue_count(infos.take(i)) + j < created_queues(infos).len(),
        created_queues(infos)[total_queue_count(infos.take(i)) + j] == (CreatedQueue {
            flags: infos[i].flags,
            queue_family_index: infos[i].queue_family_index,
            queue_index: j as u32,
        }),
    decreases infos.len(),
{
    let prefix = infos.drop_last();
    lemma_created_queue_count(prefix);
    lemma_created_queue_count(infos);
    if i < infos.len() - 1 {
        lemma_created_queue_position(prefix, i, j);
        assert(prefix.take(i) =~= infos.take(i));
        assert(prefix[i] == infos[i]);
        lemma_created_queue_count(prefix.take(i));
    } else {
        assert(infos.take(i) =~= prefix);
        assert(infos[i] == infos.last());
    }
}

} // verus!
