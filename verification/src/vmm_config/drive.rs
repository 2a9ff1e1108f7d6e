//! Block devices as they are configured before boot, and the ordered list that
//! holds them.

use super::rate_limiter::RateLimiterConfig;
use vstd::prelude::*;
use vstd::string::*;

verus! {

/// Why an operation on a block device was refused.
#[derive(Clone, Debug, PartialEq, Eq)]
pub enum DriveError {
    /// The backing file cannot be opened; with the cause.
    CannotOpenBlockDevice(String),
    /// No block device has this id.
    InvalidBlockDeviceID,
    /// The path of the backing file does not exist.
    InvalidBlockDevicePath,
    /// Another block device is backed by the same path.
    BlockDevicePathAlreadyExists,
    /// The running device has no event handler registered.
    EpollHandlerNotFound,
    /// The running device could not be updated.
    BlockDeviceUpdateFailed,
    /// The operation needs a running microVM.
    OperationNotAllowedPreBoot,
    /// The microVM has booted; the configuration can no longer change.
    UpdateNotAllowedPostBoot,
    /// There is a root block device already.
    RootBlockDeviceAlreadyAdded,
}

impl DriveError {
    /// The text of `message`.
    pub open spec fn message_spec(self) -> Seq<char> {
        match self {
            DriveError::CannotOpenBlockDevice(cause) => "Cannot open block device. Invalid permission/path: "@
                + cause@,
            DriveError::InvalidBlockDeviceID => "Invalid block device ID!"@,
            DriveError::InvalidBlockDevicePath => "Invalid block device path!"@,
            DriveError::BlockDevicePathAlreadyExists => "The block device path was already added to a different drive!"@,
            DriveError::EpollHandlerNotFound => "Error retrieving device epoll handler!"@,
            DriveError::BlockDeviceUpdateFailed => "The update operation failed!"@,
            DriveError::OperationNotAllowedPreBoot => "Operation not allowed pre-boot!"@,
            DriveError::UpdateNotAllowedPostBoot => "The update operation is not allowed after boot."@,
            DriveError::RootBlockDeviceAlreadyAdded => "A root block device already exists!"@,
        }
    }

    /// A sentence that describes the error.
    pub fn message(&self) -> (r: String)
        ensures
            r@ == self.message_spec(),
    {
        match self {
            DriveError::CannotOpenBlockDevice(cause) => {
                let mut text = String::from_str(
                    "Cannot open block device. Invalid permission/path: ",
                );
                text.append(cause.as_str());
                text
            },
            DriveError::InvalidBlockDeviceID => String::from_str("Invalid block device ID!"),
            DriveError::InvalidBlockDevicePath => String::from_str("Invalid block device path!"),
            DriveError::BlockDevicePathAlreadyExists => String::from_str(
                "The block device path was already added to a different drive!",
            ),
            DriveError::EpollHandlerNotFound => String::from_str(
                "Error retrieving device epoll handler!",
            ),
            DriveError::BlockDeviceUpdateFailed => String::from_str(
                "The update operation failed!",
            ),
            DriveError::OperationNotAllowedPreBoot => String::from_str(
                "Operation not allowed pre-boot!",
            ),
            DriveError::UpdateNotAllowedPostBoot => String::from_str(
                "The update operation is not allowed after boot.",
            ),
            DriveError::RootBlockDeviceAlreadyAdded => String::from_str(
                "A root block device already exists!",
            ),
        }
    }
}

/// The access with which a file is opened.
#[derive(Clone, Copy, Debug, PartialEq, Eq, Structural)]
pub struct OpenMode {
    /// Whether the file is opened for reading.
    pub read: bool,
    /// Whether the file is opened for writing.
    pub write: bool,
}

/// One block device: which host file backs it and how the guest sees it.
#[derive(Debug, PartialEq, Eq)]
pub struct BlockDeviceConfig {
    /// The name by which the device is known.
    pub drive_id: String,
    /// The path of the backing file on the host.
    pub path_on_host: String,
    /// Whether the guest boots from this device.
    pub is_root_device: bool,
    /// The partition that holds the root file system, where the guest is to
    /// find it by its unique id.
    pub partuuid: Option<String>,
    /// Whether the guest may only read the device.
    pub is_read_only: bool,
    /// The limits on the device's traffic, if any.
    pub rate_limiter: Option<RateLimiterConfig>,
}

impl Clone for BlockDeviceConfig {
    fn clone(&self) -> (r: Self)
        ensures
            r == *self,
    {
        let partuuid = match &self.partuuid {
            Some(id) => Some(id.clone()),
            None => None,
        };
        BlockDeviceConfig {
            drive_id: self.drive_id.clone(),
            path_on_host: self.path_on_host.clone(),
            is_root_device: self.is_root_device,
            partuuid,
            is_read_only: self.is_read_only,
            rate_limiter: self.rate_limiter,
        }
    }
}

impl BlockDeviceConfig {
    /// This configuration with another backing file.
    pub open spec fn with_path(self, path: String) -> BlockDeviceConfig {
        BlockDeviceConfig { path_on_host: path, ..self }
    }

    /// The access with which the backing file of the device is opened: for
    /// reading always, for writing unless the device is read-only.
    pub open spec fn spec_open_mode(self) -> OpenMode {
        OpenMode { read: true, write: !self.is_read_only }
    }

    /// The access with which the backing file of the device is opened, at
    /// boot and whenever the device gets another backing file: never more
    /// than the device declares.
    pub fn open_mode(&self) -> (r: OpenMode)
        ensures
            r == self.spec_open_mode(),
    {
        OpenMode { read: true, write: !self.is_read_only }
    }

    /// Whether the guest may only read the device.
    pub fn is_read_only(&self) -> (r: bool)
        ensures
            r == self.is_read_only,
    {
        self.is_read_only
    }

    /// The unique id of the root partition, where one is given.
    pub fn get_partuuid(&self) -> (r: Option<&String>)
        ensures
            r is Some <==> self.partuuid is Some,
            r matches Some(id) ==> *id == self.partuuid->0,
    {
        self.partuuid.as_ref()
    }
}

/// Whether some device in `list` has the id `id`.
pub open spec fn has_drive(list: Seq<BlockDeviceConfig>, id: Seq<char>) -> bool {
    exists|i: int| 0 <= i < list.len() && (#[trigger] list[i]).drive_id@ == id
}

/// The place in `list` of a device with the id `id`.
pub open spec fn drive_position(list: Seq<BlockDeviceConfig>, id: Seq<char>) -> int {
    choose|i: int| 0 <= i < list.len() && (#[trigger] list[i]).drive_id@ == id
}

/// Whether some device in `list` is backed by `path`.
pub open spec fn has_path(list: Seq<BlockDeviceConfig>, path: Seq<char>) -> bool {
    exists|i: int| 0 <= i < list.len() && (#[trigger] list[i]).path_on_host@ == path
}

/// Whether `list` holds a root device.
pub open spec fn has_root(list: Seq<BlockDeviceConfig>) -> bool {
    exists|i: int| 0 <= i < list.len() && (#[trigger] list[i]).is_root_device
}

/// Whether `list` holds a root device that names its partition by unique id.
pub open spec fn has_partuuid_root(list: Seq<BlockDeviceConfig>) -> bool {
    exists|i: int|
        0 <= i < list.len() && (#[trigger] list[i]).is_root_device && list[i].partuuid is Some
}

/// Whether `list` holds a root device that the guest may only read.
pub open spec fn has_read_only_root(list: Seq<BlockDeviceConfig>) -> bool {
    exists|i: int|
        0 <= i < list.len() && (#[trigger] list[i]).is_root_device && list[i].is_read_only
}

/// No two devices of `list` share an id.
pub open spec fn ids_unique(list: Seq<BlockDeviceConfig>) -> bool {
    forall|i: int, j: int|
        0 <= i < j < list.len() ==> (#[trigger] list[i]).drive_id@ != (#[trigger] list[j]).drive_id@
}

/// At most one device of `list` is a root device.
pub open spec fn single_root(list: Seq<BlockDeviceConfig>) -> bool {
    forall|i: int, j: int|
        0 <= i < list.len() && 0 <= j < list.len() && (#[trigger] list[i]).is_root_device && (
        #[trigger] list[j]).is_root_device ==> i == j
}

/// What a list of block devices must satisfy.
pub open spec fn block_list_valid(list: Seq<BlockDeviceConfig>) -> bool {
    ids_unique(list) && single_root(list)
}

/// The list after `config` was inserted, or why the insertion is refused.
///
/// A configuration whose id is in the list replaces the one there, in place. A
/// new root device goes to the front, so that it is the first device that the
/// guest sees; any other new device goes to the end.
pub open spec fn insert_result(
    list: Seq<BlockDeviceConfig>,
    config: BlockDeviceConfig,
    path_exists: bool,
) -> Result<Seq<BlockDeviceConfig>, DriveError> {
    if !path_exists {
        Err(DriveError::InvalidBlockDevicePath)
    } else if has_drive(list, config.drive_id@) {
        let i = drive_position(list, config.drive_id@);
        if config.is_root_device && !list[i].is_root_device && has_root(list) {
            Err(DriveError::RootBlockDeviceAlreadyAdded)
        } else {
            Ok(list.update(i, config))
        }
    } else if has_path(list, config.path_on_host@) {
        Err(DriveError::BlockDevicePathAlreadyExists)
    } else if config.is_root_device {
        if has_root(list) {
            Err(DriveError::RootBlockDeviceAlreadyAdded)
        } else {
            Ok(list.insert(0, config))
        }
    } else {
        Ok(list.push(config))
    }
}

/// In a list without repeated ids, a device's id leads back to its place.
pub proof fn lemma_drive_position(list: Seq<BlockDeviceConfig>, i: int)
    requires
        ids_unique(list),
        0 <= i < list.len(),
    ensures
        has_drive(list, list[i].drive_id@),
        drive_position(list, list[i].drive_id@) == i,
{
    let id = list[i].drive_id@;
    let p = drive_position(list, id);
    assert(0 <= p < list.len() && list[p].drive_id@ == id);
    if p < i {
        assert(list[p].drive_id@ != list[i].drive_id@);
    } else if i < p {
        assert(list[i].drive_id@ != list[p].drive_id@);
    }
}

/// An insertion that succeeds leaves a valid list; it replaces where the id was
/// known and adds one entry where it was not.
pub proof fn lemma_insert_keeps_valid(
    list: Seq<BlockDeviceConfig>,
    config: BlockDeviceConfig,
    path_exists: bool,
)
    requires
        block_list_valid(list),
    ensures
        insert_result(list, config, path_exists) matches Ok(after) ==> {
            &&& block_list_valid(after)
            &&& has_drive(after, config.drive_id@)
            &&& after[drive_position(after, config.drive_id@)] == config
            &&& has_drive(list, config.drive_id@) ==> after.len() == list.len()
            &&& !has_drive(list, config.drive_id@) ==> after.len() == list.len() + 1
        },
{
    if let Ok(after) = insert_result(list, config, path_exists) {
        let id = config.drive_id@;
        if has_drive(list, id) {
            let i = drive_position(list, id);
            assert(after == list.update(i, config));
            assert forall|a: int, b: int| 0 <= a < b < after.len() implies (#[trigger] after[a]).drive_id@
                != (#[trigger] after[b]).drive_id@ by {
                assert(list[a].drive_id@ != list[b].drive_id@);
            }
            assert forall|a: int, b: int|
                0 <= a < after.len() && 0 <= b < after.len() && (#[trigger] after[a]).is_root_device
                    && (#[trigger] after[b]).is_root_device implies a == b by {
                if a != i && b != i {
                    assert(list[a].is_root_device && list[b].is_root_device);
                } else if a != i {
                    assert(list[a].is_root_device);
                    assert(list[i].is_root_device);
                } else if b != i {
                    assert(list[b].is_root_device);
                    assert(list[i].is_root_device);
                }
            }
            assert(after[i].drive_id@ == id);
            lemma_drive_position(after, i);
        } else if config.is_root_device {
            assert(after == list.insert(0, config));
            assert forall|a: int, b: int| 0 <= a < b < after.len() implies (#[trigger] after[a]).drive_id@
                != (#[trigger] after[b]).drive_id@ by {
                if a == 0 {
                    assert(after[b] == list[b - 1]);
                } else {
                    assert(after[a] == list[a - 1]);
                    assert(after[b] == list[b - 1]);
                }
            }
            assert forall|a: int, b: int|
                0 <= a < after.len() && 0 <= b < after.len() && (#[trigger] after[a]).is_root_device
                    && (#[trigger] after[b]).is_root_device implies a == b by {
                if a > 0 {
                    assert(after[a] == list[a - 1]);
                }
                if b > 0 {
                    assert(after[b] == list[b - 1]);
                }
            }
            assert(after[0].drive_id@ == id);
            lemma_drive_position(after, 0);
        } else {
            assert(after == list.push(config));
            assert forall|a: int, b: int| 0 <= a < b < after.len() implies (#[trigger] after[a]).drive_id@
                != (#[trigger] after[b]).drive_id@ by {
                assert(after[a] == list[a]);
                if b < list.len() {
                    assert(after[b] == list[b]);
                }
            }
            assert forall|a: int, b: int|
                0 <= a < after.len() && 0 <= b < after.len() && (#[trigger] after[a]).is_root_device
                    && (#[trigger] after[b]).is_root_device implies a == b by {
                if a < list.len() {
                    assert(after[a] == list[a]);
                }
                if b < list.len() {
                    assert(after[b] == list[b]);
                }
            }
            assert(after[list.len() as int].drive_id@ == id);
            lemma_drive_position(after, list.len() as int);
        }
    }
}

/// The list after each of `requests` was tried in turn; a refused insertion
/// leaves the list as it was.
pub open spec fn insert_all(
    list: Seq<BlockDeviceConfig>,
    requests: Seq<(BlockDeviceConfig, bool)>,
) -> Seq<BlockDeviceConfig>
    decreases requests.len(),
{
    if requests.len() == 0 {
        list
    } else {
        let before = insert_all(list, requests.drop_last());
        match insert_result(before, requests.last().0, requests.last().1) {
            Ok(after) => after,
            Err(_) => before,
        }
    }
}

/// However many insertions are tried on a valid list, and whichever of them
/// succeed, the list stays valid: it never holds two root devices, nor two
/// devices with one id.
pub proof fn lemma_insert_all_keeps_valid(
    list: Seq<BlockDeviceConfig>,
    requests: Seq<(BlockDeviceConfig, bool)>,
)
    requires
        block_list_valid(list),
    ensures
        block_list_valid(insert_all(list, requests)),
    decreases requests.len(),
{
    if requests.len() > 0 {
        lemma_insert_all_keeps_valid(list, requests.drop_last());
        lemma_insert_keeps_valid(
            insert_all(list, requests.drop_last()),
            requests.last().0,
            requests.last().1,
        );
    }
}

/// The block devices of a microVM, in the order in which the guest will see
/// them.
#[derive(Debug)]
pub struct BlockDeviceConfigs {
    config_list: Vec<BlockDeviceConfig>,
}

impl View for BlockDeviceConfigs {
    type V = Seq<BlockDeviceConfig>;

    /// The devices, first to last.
    closed spec fn view(&self) -> Seq<BlockDeviceConfig> {
        self.config_list@
    }
}

impl BlockDeviceConfigs {
    /// The list is valid: no id twice, at most one root device.
    pub open spec fn wf(&self) -> bool {
        block_list_valid(self@)
    }

    /// An empty list.
    pub fn new() -> (r: Self)
        ensures
            r.wf(),
            r@ == Seq::<BlockDeviceConfig>::empty(),
    {
        BlockDeviceConfigs { config_list: Vec::new() }
    }

    /// The devices, first to last.
    pub fn config_list(&self) -> (r: &Vec<BlockDeviceConfig>)
        ensures
            r@ == self@,
    {
        &self.config_list
    }

    /// The number of devices.
    pub fn len(&self) -> (r: usize)
        ensures
            r == self@.len(),
    {
        self.config_list.len()
    }

    /// The place of the device with the id `drive_id`, if there is one.
    pub fn get_index_of_drive_id(&self, drive_id: &str) -> (r: Option<usize>)
        ensures
            match r {
                Some(i) => i < self@.len() && self@[i as int].drive_id@ == drive_id@ && forall|
                    j: int,
                | 0 <= j < i ==> (#[trigger] self@[j]).drive_id@ != drive_id@,
                None => !has_drive(self@, drive_id@),
            },
    {
        let mut i: usize = 0;
        while i < self.config_list.len()
            invariant
                i <= self.config_list.len(),
                forall|j: int| 0 <= j < i ==> (#[trigger] self.config_list@[j]).drive_id@ != drive_id@,
            decreases self.config_list.len() - i,
        {
            if self.config_list[i].drive_id.as_str().eq(drive_id) {
                return Some(i);
            }
            i = i + 1;
        }
        None
    }

    /// Whether some device is backed by `path`.
    pub fn contains_drive_path(&self, path: &str) -> (r: bool)
        ensures
            r == has_path(self@, path@),
    {
        let mut i: usize = 0;
        while i < self.config_list.len()
            invariant
                i <= self.config_list.len(),
                forall|j: int| 0 <= j < i ==> (#[trigger] self.config_list@[j]).path_on_host@ != path@,
            decreases self.config_list.len() - i,
        {
            if self.config_list[i].path_on_host.as_str().eq(path) {
                return true;
            }
            i = i + 1;
        }
        false
    }

    /// Whether there is a root device.
    pub fn has_root_block_device(&self) -> (r: bool)
        ensures
            r == has_root(self@),
    {
        let mut i: usize = 0;
        while i < self.config_list.len()
            invariant
                i <= self.config_list.len(),
                forall|j: int| 0 <= j < i ==> !(#[trigger] self.config_list@[j]).is_root_device,
            decreases self.config_list.len() - i,
        {
            if self.config_list[i].is_root_device {
                return true;
            }
            i = i + 1;
        }
        false
    }

    /// Whether there is a root device that names its partition by unique id.
    pub fn has_partuuid_root(&self) -> (r: bool)
        ensures
            r == has_partuuid_root(self@),
    {
        let mut i: usize = 0;
        while i < self.config_list.len()
            invariant
                i <= self.config_list.len(),
                forall|j: int|
                    0 <= j < i ==> !((#[trigger] self.config_list@[j]).is_root_device
                        && self.config_list@[j].partuuid is Some),
            decreases self.config_list.len() - i,
        {
            if self.config_list[i].is_root_device && self.config_list[i].partuuid.is_some() {
                return true;
            }
            i = i + 1;
        }
        false
    }

    /// Whether there is a root device that the guest may only read.
    pub fn has_read_only_root(&self) -> (r: bool)
        ensures
            r == has_read_only_root(self@),
    {
        let mut i: usize = 0;
        while i < self.config_list.len()
            invariant
                i <= self.config_list.len(),
                forall|j: int|
                    0 <= j < i ==> !((#[trigger] self.config_list@[j]).is_root_device
                        && self.config_list@[j].is_read_only),
            decreases self.config_list.len() - i,
        {
            if self.config_list[i].is_root_device && self.config_list[i].is_read_only {
                return true;
            }
            i = i + 1;
        }
        false
    }

    /// Inserts `config`, or replaces the device that has its id. `path_exists`
    /// says whether the backing file was found on the host. A refused insertion
    /// leaves the list as it was.
    pub fn insert(&mut self, config: BlockDeviceConfig, path_exists: bool) -> (r: Result<
        (),
        DriveError,
    >)
        requires
            old(self).wf(),
        ensures
            final(self).wf(),
            match r {
                Ok(()) => insert_result(old(self)@, config, path_exists) == Ok::<
                    Seq<BlockDeviceConfig>,
                    DriveError,
                >(final(self)@),
                Err(e) => insert_result(old(self)@, config, path_exists) == Err::<
                    Seq<BlockDeviceConfig>,
                    DriveError,
                >(e) && final(self)@ == old(self)@,
            },
    {
        proof {
            lemma_insert_keeps_valid(self@, config, path_exists);
        }
        if !path_exists {
            return Err(DriveError::InvalidBlockDevicePath);
        }
        match self.get_index_of_drive_id(config.drive_id.as_str()) {
            Some(i) => {
                proof {
                    lemma_drive_position(self@, i as int);
                }
                if config.is_root_device && !self.config_list[i].is_root_device
                    && self.has_root_block_device() {
                    return Err(DriveError::RootBlockDeviceAlreadyAdded);
                }
                self.config_list.set(i, config);
                Ok(())
            },
            None => {
                if self.contains_drive_path(config.path_on_host.as_str()) {
                    return Err(DriveError::BlockDevicePathAlreadyExists);
                }
                if config.is_root_device {
                    if self.has_root_block_device() {
                        return Err(DriveError::RootBlockDeviceAlreadyAdded);
                    }
                    self.config_list.insert(0, config);
                } else {
                    self.config_list.push(config);
                }
                Ok(())
            },
        }
    }

    /// Gives the device at `index` another backing file.
    pub fn set_path(&mut self, index: usize, path: String)
        requires
            old(self).wf(),
            index < old(self)@.len(),
        ensures
            final(self).wf(),
            final(self)@ == old(self)@.update(index as int, old(self)@[index as int].with_path(path)),
    {
        let mut config = self.config_list[index].clone();
        config.path_on_host = path;
        let ghost before = self@;
        self.config_list.set(index, config);
        proof {
            let after = self@;
            assert forall|a: int, b: int| 0 <= a < b < after.len() implies (#[trigger] after[a]).drive_id@
                != (#[trigger] after[b]).drive_id@ by {
                assert(before[a].drive_id@ != before[b].drive_id@);
            }
            assert forall|a: int, b: int|
                0 <= a < after.len() && 0 <= b < after.len() && (#[trigger] after[a]).is_root_device
                    && (#[trigger] after[b]).is_root_device implies a == b by {
                assert(before[a].is_root_device && before[b].is_root_device);
            }
        }
    }
}

} // verus!
