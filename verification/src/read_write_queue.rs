//! Task handles and the registry that creates, launches and signals them.

use vstd::prelude::*;
use vstd::string::StringExecFns;
use crossbeam_channel::{unbounded, Receiver, Sender};
use crate::control::{send_message, ChannelFault, ControlMessage};
use crate::cronueue::{initial_state, CronueueAction, RunLoop};

verus! {

/// Why an operation of the registry did not take place.
#[derive(Clone, Copy, Debug, PartialEq, Eq, Structural)]
pub enum QueueError {
    /// No handle goes by the name, or the registry is empty.
    NotFound,
    /// A handle of that name is registered already.
    DuplicateName,
    /// The task's control channel is closed.
    ChannelClosed,
    /// The task was launched before.
    AlreadyLaunched,
    /// A pause of zero milliseconds was asked for. On the channel zero is
    /// the order to stop, so no pause is written as zero.
    ZeroPause,
}

/// The name under which a handle is kept: the name it was given, and a
/// suffix that marks it as a queue.
pub open spec fn queue_name(raw: Seq<char>) -> Seq<char> {
    raw + seq!['-', 'q', 'u', 'e', 'u', 'e']
}

/// Distinct names are kept under distinct queue names.
pub proof fn law_queue_names_distinct(a: Seq<char>, b: Seq<char>)
    requires
        queue_name(a) == queue_name(b),
    ensures
        a == b,
{
    assert(queue_name(a).len() == a.len() + 6);
    assert(queue_name(b).len() == b.len() + 6);
    assert forall|i: int| 0 <= i < a.len() implies a[i] == b[i] by {
        assert(queue_name(a)[i] == a[i]);
        assert(queue_name(b)[i] == b[i]);
    }
    assert(a =~= b);
}

pub fn make_queue_name(raw: &String) -> (name: String)
    ensures
        name@ == queue_name(raw@),
{
    let mut name = raw.clone();
    proof {
        reveal_strlit("-queue");
        assert("-queue"@ =~= seq!['-', 'q', 'u', 'e', 'u', 'e']);
    }
    name.append("-queue");
    name
}

/// What a channel send amounts to for the caller of the registry.
pub fn sent_or_closed(sent: Result<(), ChannelFault>) -> (r: Result<(), QueueError>)
    ensures
        r == (match sent {
            Ok(_) => Ok::<(), QueueError>(()),
            Err(_) => Err::<(), QueueError>(QueueError::ChannelClosed),
        }),
{
    match sent {
        Ok(_) => Ok(()),
        Err(_) => Err(QueueError::ChannelClosed),
    }
}

/// What a launch hands to the runner of a task: the loop to drive and the
/// end of the control channel to read. When the runner drops the receiver,
/// the channel is closed and further messages to the task are refused.
pub struct Launch {
    pub run_loop: RunLoop,
    pub receiver: Receiver<u32>,
}

/// A named task with its control channel. The handle keeps the sending end
/// for good and the receiving end until the task is launched.
pub struct CronChannel {
    name: String,
    cronueue_action: CronueueAction,
    sender: Sender<u32>,
    receiver: Option<Receiver<u32>>,
}

impl CronChannel {
    pub closed spec fn spec_name(&self) -> Seq<char> {
        self.name@
    }

    pub closed spec fn task(&self) -> CronueueAction {
        self.cronueue_action
    }

    /// A task is launched once its handle has given the receiving end of
    /// the channel away.
    pub closed spec fn is_launched(&self) -> bool {
        self.receiver is None
    }

    /// The receiving end of the channel, while the handle keeps it.
    pub closed spec fn kept_receiver(&self) -> Option<Receiver<u32>> {
        self.receiver
    }

    /// The handle as it is once launched: the same, without the receiving
    /// end.
    pub closed spec fn marked_launched(self) -> CronChannel {
        CronChannel { receiver: None, ..self }
    }

    pub proof fn lemma_marked_launched(self)
        ensures
            self.marked_launched().spec_name() == self.spec_name(),
            self.marked_launched().task() == self.task(),
            self.marked_launched().is_launched(),
            self.marked_launched().kept_receiver() is None,
            self.is_launched() <==> self.kept_receiver() is None,
    {
    }

    /// A handle for `cronueue_action`, with a channel of its own, not yet
    /// launched.
    pub fn new(name_raw: String, cronueue_action: CronueueAction) -> (handle: Self)
        ensures
            handle.spec_name() == queue_name(name_raw@),
            handle.task() == cronueue_action,
            !handle.is_launched(),
    {
        let (tx, rx) = unbounded::<u32>();
        let name = make_queue_name(&name_raw);
        CronChannel { name, cronueue_action, sender: tx, receiver: Some(rx) }
    }

    pub fn name(&self) -> (name: &String)
        ensures
            name@ == self.spec_name(),
    {
        &self.name
    }

    pub fn cronueue_action(&self) -> (task: &CronueueAction)
        ensures
            *task == self.task(),
    {
        &self.cronueue_action
    }

    pub fn launched(&self) -> (yes: bool)
        ensures
            yes == self.is_launched(),
    {
        self.receiver.is_none()
    }

    /// What a launch of `before` gives: a loop for its task in the initial
    /// state, and the receiving end that the handle kept.
    pub open spec fn launch_of(before: CronChannel, launch: Launch) -> bool {
        &&& launch.run_loop.schedule() == before.task().schedule()
        &&& launch.run_loop.state() == initial_state()
        &&& before.kept_receiver() == Some(launch.receiver)
    }

    /// Launches the task: hands out the run loop to drive and the receiving
    /// end of the control channel. A second launch is refused and changes
    /// nothing.
    pub fn launch(&mut self) -> (r: Result<Launch, QueueError>)
        ensures
            old(self).is_launched() ==> r == Err::<Launch, QueueError>(QueueError::AlreadyLaunched)
                && *final(self) == *old(self),
            !old(self).is_launched() ==> *final(self) == old(self).marked_launched() && (
            r matches Ok(launch) && Self::launch_of(*old(self), launch)),
            final(self).is_launched(),
            final(self).spec_name() == old(self).spec_name(),
            final(self).task() == old(self).task(),
    {
        match self.receiver.take() {
            None => Err(QueueError::AlreadyLaunched),
            Some(receiver) => Ok(Launch { run_loop: RunLoop::new(&self.cronueue_action), receiver }),
        }
    }

    /// Sends a pause of `millis` milliseconds down the control channel. A
    /// pause of zero is refused and nothing is sent: a pause never stops the
    /// task. A positive pause fails only when the channel is closed, as it
    /// is once the runner of the task has dropped the receiving end.
    pub fn suspend(&self, millis: u32) -> (r: Result<(), QueueError>)
        ensures
            millis == 0 ==> r == Err::<(), QueueError>(QueueError::ZeroPause),
            millis > 0 ==> r is Ok || r == Err::<(), QueueError>(QueueError::ChannelClosed),
    {
        match ControlMessage::pause(millis) {
            None => Err(QueueError::ZeroPause),
            Some(msg) => sent_or_closed(send_message(&self.sender, msg)),
        }
    }

    /// Sends the order to stop down the control channel. Fails only when the
    /// channel is closed.
    pub fn terminate(&self) -> (r: Result<(), QueueError>)
        ensures
            r is Ok || r == Err::<(), QueueError>(QueueError::ChannelClosed),
    {
        sent_or_closed(send_message(&self.sender, ControlMessage::Terminate))
    }
}

/// Whether `i` is the place of the first name in `names` equal to `target`.
pub open spec fn is_first_match(names: Seq<Seq<char>>, target: Seq<char>, i: int) -> bool {
    &&& 0 <= i < names.len()
    &&& names[i] == target
    &&& forall|j: int| 0 <= j < i ==> names[j] != target
}

/// Whether some name in `names` equals `target`.
pub open spec fn has_match(names: Seq<Seq<char>>, target: Seq<char>) -> bool {
    exists|i: int| 0 <= i < names.len() && names[i] == target
}

/// No name occurs twice.
pub open spec fn all_distinct(names: Seq<Seq<char>>) -> bool {
    forall|i: int, j: int| 0 <= i < j < names.len() ==> names[i] != names[j]
}

/// The names of a registry after a task was offered under `raw`: the same
/// where the name was taken, else with the new queue name at the end.
pub open spec fn names_after_add(names: Seq<Seq<char>>, raw: Seq<char>) -> Seq<Seq<char>> {
    if has_match(names, queue_name(raw)) {
        names
    } else {
        names.push(queue_name(raw))
    }
}

/// The registry: task handles in the order of their registration.
pub struct ReadWriteQueue {
    handles: Vec<CronChannel>,
}

impl ReadWriteQueue {
    /// The handles, oldest first.
    pub closed spec fn entries(&self) -> Seq<CronChannel> {
        self.handles@
    }

    /// The queue names of the handles, oldest first.
    pub open spec fn names(&self) -> Seq<Seq<char>> {
        Seq::new(self.entries().len(), |i: int| self.entries()[i].spec_name())
    }

    /// Every handle has a name of its own.
    pub open spec fn wf(&self) -> bool {
        all_distinct(self.names())
    }

    /// Whether a task is registered under the name `raw`.
    pub open spec fn has_name(&self, raw: Seq<char>) -> bool {
        has_match(self.names(), queue_name(raw))
    }

    /// Whether handle `i` is the one that the name `raw` resolves to: the
    /// first, in the order of registration, that goes by it.
    pub open spec fn resolves_to(&self, raw: Seq<char>, i: int) -> bool {
        is_first_match(self.names(), queue_name(raw), i)
    }

    pub fn new() -> (queue: Self)
        ensures
            queue.entries() == Seq::<CronChannel>::empty(),
            queue.wf(),
    {
        ReadWriteQueue { handles: Vec::new() }
    }

    pub fn len(&self) -> (n: usize)
        ensures
            n == self.entries().len(),
    {
        self.handles.len()
    }

    /// The handle at place `i`, counted from the oldest.
    pub fn get(&self, i: usize) -> (handle: Option<&CronChannel>)
        ensures
            i < self.entries().len() ==> handle == Some(&self.entries()[i as int]),
            i >= self.entries().len() ==> handle is None,
    {
        if i < self.handles.len() {
            Some(&self.handles[i])
        } else {
            None
        }
    }

    /// The place of the handle that `name` resolves to.
    pub fn position(&self, name: &String) -> (place: Option<usize>)
        ensures
            place matches Some(i) ==> self.resolves_to(name@, i as int),
            place is None ==> !self.has_name(name@),
    {
        let target = make_queue_name(name);
        let mut i: usize = 0;
        while i < self.handles.len()
            invariant
                i <= self.handles.len(),
                target@ == queue_name(name@),
                forall|j: int| 0 <= j < i ==> self.names()[j] != target@,
            decreases self.handles.len() - i,
        {
            if *self.handles[i].name() == target {
                return Some(i);
            }
            i = i + 1;
        }
        None
    }

    /// Registers `action` under `name`, as the newest handle. A name that is
    /// taken is refused, and the registry stays as it was.
    pub fn add_new_action(&mut self, name: String, action: CronueueAction) -> (r: Result<
        (),
        QueueError,
    >)
        requires
            old(self).wf(),
        ensures
            final(self).wf(),
            final(self).names() == names_after_add(old(self).names(), name@),
            old(self).has_name(name@) ==> r == Err::<(), QueueError>(QueueError::DuplicateName)
                && final(self).entries() == old(self).entries(),
            !old(self).has_name(name@) ==> r is Ok && final(self).entries().len() == old(
                self,
            ).entries().len() + 1 && final(self).entries().drop_last() == old(self).entries() && ({
                let added = final(self).entries().last();
                &&& added.spec_name() == queue_name(name@)
                &&& added.task() == action
                &&& !added.is_launched()
            }),
    {
        match self.position(&name) {
            Some(_) => Err(QueueError::DuplicateName),
            None => {
                let handle = CronChannel::new(name, action);
                let ghost before = self.names();
                self.handles.push(handle);
                proof {
                    let after = self.names();
                    assert(self.entries().drop_last() =~= old(self).entries());
                    assert(after =~= before.push(queue_name(name@)));
                    assert forall|i: int, j: int| 0 <= i < j < after.len() implies after[i]
                        != after[j] by {
                        assert(after[i] == before[i]);
                        if j < before.len() {
                            assert(after[j] == before[j]);
                        }
                    }
                }
                Ok(())
            },
        }
    }
}

impl ReadWriteQueue {
    /// What launching handle `i` does to the registry and gives back.
    pub open spec fn launched_at(
        before: Seq<CronChannel>,
        i: int,
        after: Seq<CronChannel>,
        r: Result<Launch, QueueError>,
    ) -> bool {
        if before[i].is_launched() {
            &&& r == Err::<Launch, QueueError>(QueueError::AlreadyLaunched)
            &&& after == before
        } else {
            &&& after == before.update(i, before[i].marked_launched())
            &&& after[i].is_launched()
            &&& after[i].spec_name() == before[i].spec_name()
            &&& after[i].task() == before[i].task()
            &&& r matches Ok(launch)
            &&& CronChannel::launch_of(before[i], launch)
        }
    }

    fn launch_at(&mut self, i: usize) -> (r: Result<Launch, QueueError>)
        requires
            i < old(self).entries().len(),
        ensures
            Self::launched_at(old(self).entries(), i as int, final(self).entries(), r),
            final(self).names() == old(self).names(),
    {
        let r = self.handles[i].launch();
        proof {
            old(self).entries()[i as int].lemma_marked_launched();
            assert(self.names() =~= old(self).names());
            if !old(self).entries()[i as int].is_launched() {
                assert(self.entries() =~= old(self).entries().update(
                    i as int,
                    old(self).entries()[i as int].marked_launched(),
                ));
            } else {
                assert(self.entries() =~= old(self).entries());
            }
        }
        r
    }

    /// Launches the newest handle. With no handle registered there is
    /// nothing to launch, which is reported.
    pub fn launch_lastest(&mut self) -> (r: Result<Launch, QueueError>)
        ensures
            final(self).names() == old(self).names(),
            old(self).entries().len() == 0 ==> r == Err::<Launch, QueueError>(
                QueueError::NotFound,
            ) && final(self).entries() == old(self).entries(),
            old(self).entries().len() > 0 ==> Self::launched_at(
                old(self).entries(),
                old(self).entries().len() - 1,
                final(self).entries(),
                r,
            ),
    {
        let n: usize = self.handles.len();
        if n == 0 {
            Err(QueueError::NotFound)
        } else {
            self.launch_at(n - 1)
        }
    }

    /// Launches the handle that `name` resolves to. A name that resolves to
    /// nothing is reported, and the registry stays as it was.
    pub fn launch_name(&mut self, name: String) -> (r: Result<Launch, QueueError>)
        ensures
            final(self).names() == old(self).names(),
            !old(self).has_name(name@) ==> r == Err::<Launch, QueueError>(QueueError::NotFound)
                && final(self).entries() == old(self).entries(),
            forall|i: int| #[trigger]
                old(self).resolves_to(name@, i) ==> Self::launched_at(
                    old(self).entries(),
                    i,
                    final(self).entries(),
                    r,
                ),
    {
        match self.position(&name) {
            None => Err(QueueError::NotFound),
            Some(i) => {
                proof {
                    assert forall|k: int| #[trigger] self.resolves_to(name@, k) implies k == i by {
                        if k < i {
                            assert(self.names()[k] != queue_name(name@));
                        } else if i < k {
                            assert(self.names()[i as int] != queue_name(name@));
                        }
                    }
                }
                self.launch_at(i)
            },
        }
    }

    /// Sends a pause of `millis` milliseconds to the newest handle; see
    /// [`CronChannel::suspend`]. With no handle registered the lookup fails;
    /// with one, a pause of zero is refused.
    pub fn suspend_latest(&self, millis: u32) -> (r: Result<(), QueueError>)
        ensures
            self.entries().len() == 0 ==> r == Err::<(), QueueError>(QueueError::NotFound),
            self.entries().len() > 0 && millis == 0 ==> r == Err::<(), QueueError>(
                QueueError::ZeroPause,
            ),
            self.entries().len() > 0 && millis > 0 ==> r is Ok || r == Err::<(), QueueError>(
                QueueError::ChannelClosed,
            ),
    {
        let n: usize = self.handles.len();
        if n == 0 {
            Err(QueueError::NotFound)
        } else {
            self.handles[n - 1].suspend(millis)
        }
    }

    /// Sends a pause of `millis` milliseconds to the handle that `name`
    /// resolves to; see [`CronChannel::suspend`]. A name that resolves to
    /// nothing is reported; for one that resolves, a pause of zero is
    /// refused.
    pub fn suspend_name(&self, name: String, millis: u32) -> (r: Result<(), QueueError>)
        ensures
            !self.has_name(name@) ==> r == Err::<(), QueueError>(QueueError::NotFound),
            self.has_name(name@) && millis == 0 ==> r == Err::<(), QueueError>(
                QueueError::ZeroPause,
            ),
            self.has_name(name@) && millis > 0 ==> r is Ok || r == Err::<(), QueueError>(
                QueueError::ChannelClosed,
            ),
    {
        match self.position(&name) {
            None => Err(QueueError::NotFound),
            Some(i) => {
                assert(self.names()[i as int] == queue_name(name@));
                self.handles[i].suspend(millis)
            },
        }
    }

    /// Sends the order to stop to the newest handle. With no handle
    /// registered the lookup fails.
    pub fn terminate_latest(&self) -> (r: Result<(), QueueError>)
        ensures
            self.entries().len() == 0 ==> r == Err::<(), QueueError>(QueueError::NotFound),
            self.entries().len() > 0 ==> r is Ok || r == Err::<(), QueueError>(
                QueueError::ChannelClosed,
            ),
    {
        let n: usize = self.handles.len();
        if n == 0 {
            Err(QueueError::NotFound)
        } else {
            self.handles[n - 1].terminate()
        }
    }

    /// Sends the order to stop to the handle that `name` resolves to. A name
    /// that resolves to nothing is reported.
    pub fn terminate_name(&self, name: String) -> (r: Result<(), QueueError>)
        ensures
            !self.has_name(name@) ==> r == Err::<(), QueueError>(QueueError::NotFound),
            self.has_name(name@) ==> r is Ok || r == Err::<(), QueueError>(
                QueueError::ChannelClosed,
            ),
    {
        match self.position(&name) {
            None => Err(QueueError::NotFound),
            Some(i) => {
                assert(self.names()[i as int] == queue_name(name@));
                self.handles[i].terminate()
            },
        }
    }
}

/// A name resolves to at most one handle, and registering further handles
/// does not change which one: the handle that was registered first under a
/// name stays the one that the name finds.
pub proof fn law_first_registration_stays(
    names: Seq<Seq<char>>,
    target: Seq<char>,
    i: int,
    j: int,
    added: Seq<char>,
)
    requires
        is_first_match(names, target, i),
    ensures
        is_first_match(names, target, j) ==> j == i,
        is_first_match(names.push(added), target, i),
        has_match(names, target),
{
    if is_first_match(names, target, j) && j != i {
        if j < i {
            assert(names[j] != target);
        } else {
            assert(names[i] != target);
        }
    }
    assert forall|k: int| 0 <= k < i implies names.push(added)[k] != target by {
        assert(names.push(added)[k] == names[k]);
    }
}

/// Where no name occurs twice, a name is found at one place at most.
pub proof fn law_name_finds_one_handle(names: Seq<Seq<char>>, target: Seq<char>, i: int, j: int)
    requires
        all_distinct(names),
        0 <= i < names.len(),
        0 <= j < names.len(),
        names[i] == target,
        names[j] == target,
    ensures
        i == j,
{
    if i < j {
        assert(names[i] != names[j]);
    } else if j < i {
        assert(names[j] != names[i]);
    }
}

/// Once a task is registered under a name, the name is taken: a second
/// registration under it leaves the names as they are, and the name still
/// resolves to the handle that was registered first.
pub proof fn law_second_registration_changes_nothing(names: Seq<Seq<char>>, raw: Seq<char>)
    ensures
        has_match(names_after_add(names, raw), queue_name(raw)),
        names_after_add(names_after_add(names, raw), raw) == names_after_add(names, raw),
        forall|i: int|
            is_first_match(names, queue_name(raw), i) ==> is_first_match(
                names_after_add(names, raw),
                queue_name(raw),
                i,
            ),
        all_distinct(names) ==> all_distinct(names_after_add(names, raw)),
{
    let target = queue_name(raw);
    let after = names_after_add(names, raw);
    if !has_match(names, target) {
        assert(after[names.len() as int] == target);
        if all_distinct(names) {
            assert forall|i: int, j: int| 0 <= i < j < after.len() implies after[i] != after[j] by {
                if j < names.len() {
                    assert(after[i] == names[i] && after[j] == names[j]);
                } else {
                    assert(after[i] == names[i]);
                }
            }
        }
    }
}

} // verus!
