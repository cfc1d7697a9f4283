//! Rules of creating and deleting game instances.

use vstd::prelude::*;

use crate::error::Error;
use crate::error::ErrorKind;

verus! {

/// How many leading characters of an instance identifier go into its directory's name.
pub const UUID_PREFIX_LEN: usize = 8;

/// What an operator fills in to set an instance up.
#[derive(Debug)]
pub struct SetupValue {
    pub name: String,
    pub description: Option<String>,
    pub auto_start: bool,
    pub restart_on_crash: bool,
}

/// The request to create a generic instance from the implementation at a URL.
#[derive(Debug)]
pub struct GenericSetupConfig {
    url: String,
    setup_value: SetupValue,
}

impl GenericSetupConfig {
    pub closed spec fn url_text(&self) -> Seq<char> {
        self.url@
    }

    pub closed spec fn name_text(&self) -> Seq<char> {
        self.setup_value.name@
    }

    pub fn new(url: String, setup_value: SetupValue) -> (config: GenericSetupConfig)
        ensures
            config.url_text() == url@,
            config.name_text() == setup_value.name@,
    {
        GenericSetupConfig { url, setup_value }
    }

    /// The URL of the implementation.
    pub fn url(&self) -> (url: &str)
        ensures
            url@ == self.url_text(),
    {
        self.url.as_str()
    }

    /// The name that the operator gave the instance.
    pub fn name(&self) -> (name: &str)
        ensures
            name@ == self.name_text(),
    {
        self.setup_value.name.as_str()
    }
}

/// Whether `key` begins with the first eight characters of `uuid`.
pub open spec fn shares_prefix(key: Seq<char>, uuid: Seq<char>) -> bool {
    key.len() >= UUID_PREFIX_LEN && key.take(UUID_PREFIX_LEN as int) == uuid.take(
        UUID_PREFIX_LEN as int,
    )
}

/// Whether one of `keys` begins with the first eight characters of `uuid`.
pub open spec fn prefix_in_use(keys: Seq<String>, uuid: Seq<char>) -> bool {
    exists|i: int| 0 <= i < keys.len() && shares_prefix(#[trigger] keys[i]@, uuid)
}

/// Tells whether `key` begins with the first eight characters of `uuid`.
pub fn has_same_prefix(key: &str, uuid: &str) -> (same: bool)
    requires
        uuid@.len() >= UUID_PREFIX_LEN,
    ensures
        same == shares_prefix(key@, uuid@),
{
    if key.unicode_len() < UUID_PREFIX_LEN {
        return false;
    }
    let mut i: usize = 0;
    while i < UUID_PREFIX_LEN
        invariant
            i <= UUID_PREFIX_LEN,
            key@.len() >= UUID_PREFIX_LEN,
            uuid@.len() >= UUID_PREFIX_LEN,
            forall|k: int| 0 <= k < i ==> key@[k] == uuid@[k],
        decreases UUID_PREFIX_LEN - i,
    {
        if key.get_char(i) != uuid.get_char(i) {
            assert(key@.take(UUID_PREFIX_LEN as int)[i as int] != uuid@.take(
                UUID_PREFIX_LEN as int,
            )[i as int]);
            return false;
        }
        i += 1;
    }
    assert(key@.take(UUID_PREFIX_LEN as int) =~= uuid@.take(UUID_PREFIX_LEN as int));
    true
}

/// Tells whether a fresh identifier clashes with an instance on record: whether one of
/// the recorded keys begins with the identifier's first eight characters.
pub fn prefix_taken(keys: &Vec<String>, uuid: &str) -> (taken: bool)
    requires
        uuid@.len() >= UUID_PREFIX_LEN,
    ensures
        taken == prefix_in_use(keys@, uuid@),
{
    let mut i: usize = 0;
    while i < keys.len()
        invariant
            i <= keys.len(),
            uuid@.len() >= UUID_PREFIX_LEN,
            forall|k: int| 0 <= k < i ==> !shares_prefix(#[trigger] keys@[k]@, uuid@),
        decreases keys.len() - i,
    {
        if has_same_prefix(keys[i].as_str(), uuid) {
            return true;
        }
        i += 1;
    }
    false
}

/// The name of an instance's directory: the instance's name, a hyphen and the first
/// eight characters of its identifier.
pub open spec fn setup_dir_name_of(name: Seq<char>, uuid: Seq<char>) -> Seq<char> {
    name + "-"@ + uuid.take(UUID_PREFIX_LEN as int)
}

/// Writes the name of an instance's directory.
pub fn setup_dir_name(name: &str, uuid: &str) -> (dir_name: String)
    requires
        uuid@.len() >= UUID_PREFIX_LEN,
    ensures
        dir_name@ == setup_dir_name_of(name@, uuid@),
{
    let prefix: &str = uuid.substring_char(0, UUID_PREFIX_LEN);
    assert(prefix@ =~= uuid@.take(UUID_PREFIX_LEN as int));
    String::from_str(name).concat("-").concat(prefix)
}

/// What a client is told of an instance.
#[derive(Debug)]
pub struct InstanceInfo {
    pub uuid: String,
    pub name: String,
    pub port: u32,
    /// When the instance was created, as a Unix timestamp.
    pub creation_time: i64,
}

/// Where an instance created at `time` goes into a list that is ordered by creation
/// time: behind the last instance that is not younger.
pub open spec fn insert_position(list: Seq<InstanceInfo>, time: i64) -> int
    decreases list.len(),
{
    if list.len() == 0 {
        0
    } else if list.last().creation_time <= time {
        list.len() as int
    } else {
        insert_position(list.drop_last(), time)
    }
}

/// `list` with `info` put in at its position by creation time.
pub open spec fn inserted_by_time(list: Seq<InstanceInfo>, info: InstanceInfo) -> Seq<InstanceInfo> {
    list.insert(insert_position(list, info.creation_time), info)
}

/// `list` ordered by creation time, oldest first; instances of the same time keep the
/// order they came in.
pub open spec fn ordered_by_time(list: Seq<InstanceInfo>) -> Seq<InstanceInfo>
    decreases list.len(),
{
    if list.len() == 0 {
        Seq::empty()
    } else {
        inserted_by_time(ordered_by_time(list.drop_last()), list.last())
    }
}

/// Whether no instance in `list` comes before an older one.
pub open spec fn is_ordered_by_time(list: Seq<InstanceInfo>) -> bool {
    forall|i: int, j: int|
        0 <= i < j < list.len() ==> list[i].creation_time <= list[j].creation_time
}

/// The position for a new instance lies within the list, with nothing younger before it
/// and, in an ordered list, nothing as old behind it.
proof fn lemma_insert_position(list: Seq<InstanceInfo>, time: i64)
    ensures
        0 <= insert_position(list, time) <= list.len(),
        forall|k: int|
            insert_position(list, time) <= k < list.len() ==> list[k].creation_time > time,
        is_ordered_by_time(list) ==> forall|k: int|
            0 <= k < insert_position(list, time) ==> list[k].creation_time <= time,
    decreases list.len(),
{
    if list.len() > 0 && list.last().creation_time > time {
        let front = list.drop_last();
        lemma_insert_position(front, time);
        assert forall|k: int| insert_position(list, time) <= k < list.len() implies list[k].creation_time
            > time by {
            if k < front.len() {
                assert(front[k] == list[k]);
            }
        }
        if is_ordered_by_time(list) {
            assert forall|i: int, j: int| 0 <= i < j < front.len() implies front[i].creation_time
                <= front[j].creation_time by {
                assert(front[i] == list[i] && front[j] == list[j]);
            }
            assert forall|k: int| 0 <= k < insert_position(list, time) implies list[k].creation_time
                <= time by {
                assert(front[k] == list[k]);
            }
        }
    }
}

/// Putting an instance into an ordered list at its position keeps the list ordered.
proof fn lemma_inserted_is_ordered(list: Seq<InstanceInfo>, info: InstanceInfo)
    requires
        is_ordered_by_time(list),
    ensures
        is_ordered_by_time(inserted_by_time(list, info)),
{
    let p = insert_position(list, info.creation_time);
    lemma_insert_position(list, info.creation_time);
    let longer = inserted_by_time(list, info);
    assert forall|i: int, j: int| 0 <= i < j < longer.len() implies longer[i].creation_time
        <= longer[j].creation_time by {
        if i < p {
            assert(longer[i] == list[i]);
        } else if i > p {
            assert(longer[i] == list[i - 1]);
        }
        if j < p {
            assert(longer[j] == list[j]);
        } else if j > p {
            assert(longer[j] == list[j - 1]);
        }
    }
}

/// What ordering gives: the same instances, each as often as before, none before an
/// older one.
pub proof fn lemma_ordered_by_time(list: Seq<InstanceInfo>)
    ensures
        is_ordered_by_time(ordered_by_time(list)),
        ordered_by_time(list).to_multiset() == list.to_multiset(),
        ordered_by_time(list).len() == list.len(),
    decreases list.len(),
{
    if list.len() > 0 {
        let front = list.drop_last();
        let sorted_front = ordered_by_time(front);
        lemma_ordered_by_time(front);
        lemma_inserted_is_ordered(sorted_front, list.last());
        lemma_insert_position(sorted_front, list.last().creation_time);
        let p = insert_position(sorted_front, list.last().creation_time);
        vstd::seq_lib::to_multiset_insert(sorted_front, p, list.last());
        vstd::seq_lib::to_multiset_build(front, list.last());
        assert(list =~= front.push(list.last()));
    } else {
        assert(list =~= Seq::<InstanceInfo>::empty());
    }
}

/// Puts `info` into `list` at its position by creation time.
fn insert_by_time(list: &mut Vec<InstanceInfo>, info: InstanceInfo)
    ensures
        final(list)@ == inserted_by_time(old(list)@, info),
{
    let mut i: usize = list.len();
    assert(list@.take(list.len() as int) =~= list@);
    while i > 0 && list[i - 1].creation_time > info.creation_time
        invariant
            i <= list.len(),
            list@ == old(list)@,
            insert_position(list@, info.creation_time) == insert_position(
                list@.take(i as int),
                info.creation_time,
            ),
        decreases i,
    {
        assert(list@.take(i as int).drop_last() =~= list@.take(i - 1));
        i -= 1;
    }
    proof {
        if i > 0 {
            assert(list@.take(i as int).last() == list@[i - 1]);
        }
    }
    list.insert(i, info);
}

/// Orders instances by creation time, oldest first. Instances of the same time keep
/// the order they came in.
pub fn order_by_creation_time(list: Vec<InstanceInfo>) -> (ordered: Vec<InstanceInfo>)
    ensures
        ordered@ == ordered_by_time(list@),
{
    let mut ordered: Vec<InstanceInfo> = Vec::new();
    let ghost all = list@;
    assert(all.take(0) =~= Seq::<InstanceInfo>::empty());
    for info in it: list.into_iter()
        invariant
            it.seq() == all,
            ordered@ == ordered_by_time(all.take(it.index() as int)),
    {
        proof {
            let n = it.index() as int;
            assert(all.take(n + 1).drop_last() =~= all.take(n));
            assert(all.take(n + 1).last() == info);
        }
        insert_by_time(&mut ordered, info);
    }
    assert(all.take(all.len() as int) =~= all);
    ordered
}

/// The message for an instance that is not on record.
pub open spec fn instance_not_found_message() -> Seq<char> {
    "Instance not found"@
}

/// The message for an instance that still runs.
pub open spec fn must_be_stopped_message() -> Seq<char> {
    "Instance must be stopped before deletion"@
}

/// Decides whether an instance may be deleted: it must be on record, else the answer
/// is `NotFound`, and it must be stopped, else the answer is `BadRequest`.
pub fn check_deletable(found: bool, is_stopped: bool) -> (answer: Result<(), Error>)
    ensures
        answer is Ok <==> found && is_stopped,
        !found ==> (answer matches Err(e) && e@.kind == ErrorKind::NotFound && e@.source
            == instance_not_found_message()),
        found && !is_stopped ==> (answer matches Err(e) && e@.kind == ErrorKind::BadRequest
            && e@.source == must_be_stopped_message()),
{
    if !found {
        Err(Error { kind: ErrorKind::NotFound, source: String::from_str("Instance not found") })
    } else if !is_stopped {
        Err(
            Error {
                kind: ErrorKind::BadRequest,
                source: String::from_str("Instance must be stopped before deletion"),
            },
        )
    } else {
        Ok(())
    }
}

} // verus!
