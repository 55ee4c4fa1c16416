//! The preparation of a lifecycle: what becomes durable before the Host is
//! changed.
use vstd::prelude::*;

use crate::digest::{
    command_line, command_sha256, expected_server_argv, hex, lifecycle_key, lifecycle_parts,
    prefixed_all, server_argv, sha256, sha256_hex,
};
use crate::identity::{
    FileIdentity, OperationOwner, OperationOwnerView, OwnerKind, ProcessIdentity, SocketIdentity,
    SocketIdentityView,
};
use crate::lifecycle::{host_owner_fault, record_fault, LifecycleHandle, LifecycleView};
use crate::paths::{address_path, last_name, unix_socket_path};
use crate::record::{
    empty_runtime_owner, Classification, CreateState, HostCgroupOwner, HostCgroupOwnerView,
    HostOwnerState, LifecyclePhase, LifecycleRecord, LifecycleRecordView, RuntimeResourceOwner,
    SCHEMA_VERSION,
};
use crate::sockets::{
    law_claimed_socket_is_found, readable_until, reserved_by_another, socket_reserved,
};
use crate::target::HostTarget;
use crate::text::{fails_with, outcome};

verus! {

/// Whether a text is a version 4 UUID in lower case with hyphens.
pub open spec fn is_random_uuid(text: Seq<char>) -> bool {
    &&& text.len() == 36
    &&& forall|i: int|
        0 <= i < 36 ==> if i == 8 || i == 13 || i == 18 || i == 23 {
            #[trigger] text[i] == '-'
        } else {
            '0' as u32 <= text[i] as u32 <= '9' as u32 || 'a' as u32 <= text[i] as u32
                <= 'f' as u32
        }
    &&& text[14] == '4'
    &&& text[19] == '8' || text[19] == '9' || text[19] == 'a' || text[19] == 'b'
}

/// A fresh identifier: `uuid::Uuid::new_v4`, shown by its `Display`, which
/// writes the lower case form with hyphens. Which identifier comes is left to
/// the system's random bytes; without any, `new_v4` panics.
#[verifier::external_body]
pub(crate) fn fresh_uuid() -> (text: String)
    ensures
        is_random_uuid(text@),
{
    uuid::Uuid::new_v4().to_string()
}

/// What a helper knows when it prepares a lifecycle.
pub struct Preparation {
    pub namespace: String,
    pub instance_id: String,
    pub containerd_grpc_address: String,
    /// The canonical path of the bundle.
    pub bundle: String,
    pub bundle_identity: FileIdentity,
    pub classification: Classification,
    pub target: HostTarget,
    pub address: String,
    pub nonce: Vec<u8>,
    /// The canonical path of the server's executable.
    pub executable: String,
    pub executable_identity: FileIdentity,
    pub debug: bool,
    pub helper: ProcessIdentity,
    pub socket: SocketIdentity,
    pub created_at_ms: u128,
}

/// A prepared lifecycle and the name of its directory.
pub struct PreparedLifecycle {
    pub key: String,
    pub handle: LifecycleHandle,
}

/// What a socket address leads to while a lifecycle is prepared: the path of
/// the socket, unless another live lifecycle has it.
pub open spec fn reservation(
    address: Seq<char>,
    canonical_parent: Result<Seq<char>, Seq<char>>,
    records: Seq<Result<Option<LifecycleRecord>, String>>,
    parent: Result<FileIdentity, String>,
) -> Result<Seq<char>, Seq<char>> {
    match address_path(address, canonical_parent) {
        Err(message) => Err(message),
        Ok(socket) => match reserved_by_another(records, None, socket, parent) {
            Err(message) => Err(message),
            Ok(true) => Err(
                "shim socket path is already reserved by another live lifecycle: "@ + socket,
            ),
            Ok(false) => Ok(socket),
        },
    }
}

/// The socket path of an address, unless another live lifecycle has it.
/// `records` are those of the lifecycles that are there, and `parent` is the
/// directory of the socket.
pub fn reserve_socket(
    address: &str,
    canonical_parent: &Result<String, String>,
    records: &Vec<Result<Option<LifecycleRecord>, String>>,
    parent: &Result<FileIdentity, String>,
) -> (r: Result<String, String>)
    ensures
        outcome(r) == reservation(address@, outcome(*canonical_parent), records@, *parent),
{
    match unix_socket_path(address, canonical_parent) {
        Err(message) => Err(message),
        Ok(socket) => match socket_reserved(records, &None, socket.as_str(), parent) {
            Err(message) => Err(message),
            Ok(taken) => if taken {
                Err(
                    "shim socket path is already reserved by another live lifecycle: ".to_owned().concat(
                    socket.as_str()),
                )
            } else {
                Ok(socket)
            },
        },
    }
}

/// The identity of a socket that does not exist yet.
pub fn prepare_socket(path: String, parent: FileIdentity, present: bool) -> (r: Result<
    SocketIdentity,
    String,
>)
    ensures
        if present {
            fails_with(
                r,
                "refuse lifecycle prepare because socket already exists: "@ + path@,
            )
        } else {
            r matches Ok(socket) && socket@ == (SocketIdentityView {
                path: path@,
                parent,
                device: None,
                inode: None,
                absent_at_prepare: true,
            })
        },
{
    if present {
        return Err(
            "refuse lifecycle prepare because socket already exists: ".to_owned().concat(
                path.as_str(),
            ),
        );
    }
    Ok(SocketIdentity { path, parent, device: None, inode: None, absent_at_prepare: true })
}

/// The arguments with which the server of a preparation is started.
pub open spec fn prepared_argv(preparation: Preparation) -> Seq<Seq<char>> {
    server_argv(
        preparation.executable@,
        preparation.namespace@,
        preparation.instance_id@,
        preparation.containerd_grpc_address@,
        preparation.address@,
        preparation.debug,
    )
}

/// The record of a prepared lifecycle.
pub open spec fn prepared_record(preparation: Preparation, generation: Seq<char>) -> LifecycleRecordView {
    LifecycleRecordView {
        schema_version: SCHEMA_VERSION,
        sequence: 1,
        generation,
        phase: LifecyclePhase::Prepared,
        classification: preparation.classification,
        namespace: preparation.namespace@,
        instance_id: preparation.instance_id@,
        bundle: preparation.bundle@,
        bundle_identity: preparation.bundle_identity,
        created_at_ms: preparation.created_at_ms,
        takeover_claimed_at_ms: None,
        launch_nonce_sha256: hex(sha256(preparation.nonce@)),
        expected_server_path: preparation.executable@,
        expected_server_executable: preparation.executable_identity,
        expected_server_argv: prepared_argv(preparation),
        expected_server_command_sha256: hex(sha256(command_line(prepared_argv(preparation)))),
        helper: preparation.helper@,
        server: None,
        target: preparation.target@,
        socket: preparation.socket@,
        operation_owner: OperationOwnerView {
            kind: OwnerKind::Helper,
            epoch: 1,
            identity: preparation.helper@,
            revoked_epoch: None,
        },
        create_state: CreateState::Unstarted,
        create_fingerprint: None,
        create_waiters: 0,
        failure: None,
        containment_breach: None,
        vmm_worker: None,
        degraded_reason: None,
    }
}

/// A prepared lifecycle.
pub open spec fn prepared(preparation: Preparation, generation: Seq<char>) -> LifecycleView {
    LifecycleView {
        record: prepared_record(preparation, generation),
        host_owner: HostCgroupOwnerView {
            schema_version: SCHEMA_VERSION,
            generation,
            namespace: preparation.namespace@,
            instance_id: preparation.instance_id@,
            state: HostOwnerState::Empty,
            target: preparation.target@,
            original_cgroup: preparation.helper@.cgroup,
            server: None,
            controllers: None,
        },
        runtime_owner: empty_runtime_owner(generation),
    }
}

/// The name of a lifecycle's directory.
pub open spec fn prepared_key(preparation: Preparation) -> Seq<char> {
    hex(
        sha256(
            prefixed_all(
                lifecycle_parts(
                    preparation.namespace@,
                    preparation.instance_id@,
                    vstd::utf8::encode_utf8(preparation.bundle@),
                    preparation.bundle_identity,
                ),
            ),
        ),
    )
}

impl LifecycleHandle {
    /// Prepares a lifecycle of this generation.
    pub fn create_with(preparation: &Preparation, generation: &str) -> (lifecycle:
        PreparedLifecycle)
        ensures
            lifecycle.key@ == prepared_key(*preparation),
            lifecycle.handle@ == prepared(*preparation, generation@),
    {
        let key = lifecycle_key(
            preparation.namespace.as_str(),
            preparation.instance_id.as_str(),
            preparation.bundle.as_str().as_bytes(),
            &preparation.bundle_identity,
        );
        let argv = expected_server_argv(
            preparation.executable.as_str(),
            preparation.namespace.as_str(),
            preparation.instance_id.as_str(),
            preparation.containerd_grpc_address.as_str(),
            preparation.address.as_str(),
            preparation.debug,
        );
        let command = command_sha256(&argv);
        let record = LifecycleRecord {
            schema_version: SCHEMA_VERSION,
            sequence: 1,
            generation: generation.to_owned(),
            phase: LifecyclePhase::Prepared,
            classification: preparation.classification,
            namespace: preparation.namespace.clone(),
            instance_id: preparation.instance_id.clone(),
            bundle: preparation.bundle.clone(),
            bundle_identity: preparation.bundle_identity,
            created_at_ms: preparation.created_at_ms,
            takeover_claimed_at_ms: None,
            launch_nonce_sha256: sha256_hex(preparation.nonce.as_slice()),
            expected_server_path: preparation.executable.clone(),
            expected_server_executable: preparation.executable_identity,
            expected_server_argv: argv,
            expected_server_command_sha256: command,
            helper: preparation.helper.clone(),
            server: None,
            target: preparation.target.clone(),
            socket: preparation.socket.clone(),
            operation_owner: OperationOwner {
                kind: OwnerKind::Helper,
                epoch: 1,
                identity: preparation.helper.clone(),
                revoked_epoch: None,
            },
            create_state: CreateState::Unstarted,
            create_fingerprint: None,
            create_waiters: 0,
            failure: None,
            containment_breach: None,
            vmm_worker: None,
            degraded_reason: None,
        };
        let host_owner = HostCgroupOwner {
            schema_version: SCHEMA_VERSION,
            generation: generation.to_owned(),
            namespace: preparation.namespace.clone(),
            instance_id: preparation.instance_id.clone(),
            state: HostOwnerState::Empty,
            target: preparation.target.clone(),
            original_cgroup: preparation.helper.cgroup.clone(),
            server: None,
            controllers: None,
        };
        let runtime_owner = RuntimeResourceOwner::empty(generation.to_owned());
        let handle = LifecycleHandle { record, host_owner, runtime_owner };
        PreparedLifecycle { key, handle }
    }

    /// Prepares a lifecycle of a fresh generation.
    pub fn create(preparation: &Preparation) -> (lifecycle: PreparedLifecycle)
        ensures
            is_random_uuid(lifecycle.handle@.record.generation),
            lifecycle.key@ == prepared_key(*preparation),
            lifecycle.handle@ == prepared(*preparation, lifecycle.handle@.record.generation),
    {
        let generation = fresh_uuid();
        LifecycleHandle::create_with(preparation, generation.as_str())
    }
}

/// A lifecycle that was prepared with a generation can be read back, and its
/// three parts are of that generation.
pub proof fn law_prepared_lifecycle_is_usable(preparation: Preparation, generation: Seq<char>)
    requires
        is_random_uuid(generation),
    ensures
        record_fault(prepared(preparation, generation).record) is None,
        host_owner_fault(prepared(preparation, generation).host_owner) is None,
        prepared(preparation, generation).host_owner.generation == prepared(
            preparation,
            generation,
        ).record.generation,
        prepared(preparation, generation).runtime_owner.generation_id == prepared(
            preparation,
            generation,
        ).record.generation,
{
}

/// The records under a root as a preparation reads them, all of them readable.
pub open spec fn stored(records: Seq<LifecycleRecord>) -> Seq<
    Result<Option<LifecycleRecord>, String>,
> {
    Seq::new(records.len(), |i: int| Ok(Some(records[i])))
}

/// Whether the socket of every record has a name.
pub open spec fn all_named(records: Seq<LifecycleRecord>) -> bool {
    forall|i: int|
        0 <= i < records.len() ==> last_name((#[trigger] records[i])@.socket.path) is Some
}

/// What a root holds after a preparation: a record joins it only where its
/// socket was reserved for it.
pub open spec fn committed<T>(held: Seq<T>, reserved: Result<Seq<char>, Seq<char>>, record: T) -> Seq<
    T,
> {
    if reserved is Ok {
        held.push(record)
    } else {
        held
    }
}

/// A preparation whose socket was reserved leaves a record whose socket has a
/// name, so that the names of all sockets under a root stay known.
pub proof fn law_committed_sockets_are_named(
    records: Seq<LifecycleRecord>,
    address: Seq<char>,
    canonical_parent: Result<Seq<char>, Seq<char>>,
    parent: Result<FileIdentity, String>,
    record: LifecycleRecord,
)
    requires
        all_named(records),
        reservation(address, canonical_parent, stored(records), parent) matches Ok(path)
            ==> record@.socket.path == path,
    ensures
        all_named(
            committed(
                records,
                reservation(address, canonical_parent, stored(records), parent),
                record,
            ),
        ),
{
}

/// Once a preparation has reserved a socket, and until its lifecycle is done, no
/// other one reserves it, whether or not the socket is bound: a second
/// preparation for the address is refused, and no second record is committed.
/// The root may hold entries without a record, and anything behind the first
/// preparation's record; what stands before it has to be readable.
pub proof fn law_reserved_socket_is_refused(
    address: Seq<char>,
    canonical_parent: Result<Seq<char>, Seq<char>>,
    parent: FileIdentity,
    earlier: Seq<Result<Option<LifecycleRecord>, String>>,
    preparation: Preparation,
    generation: Seq<char>,
    entries: Seq<Result<Option<LifecycleRecord>, String>>,
    i: int,
    second: Result<Option<LifecycleRecord>, String>,
)
    requires
        reservation(address, canonical_parent, earlier, Ok(parent)) == Ok::<Seq<char>, Seq<char>>(
            preparation.socket@.path,
        ),
        preparation.socket@.parent == parent,
        0 <= i < entries.len(),
        readable_until(
            entries,
            None,
            parent,
            last_name(preparation.socket@.path)->0,
            i,
        ),
        entries[i] matches Ok(Some(record)) && record@.phase != LifecyclePhase::Done
            && record@.socket.path == prepared_record(preparation, generation).socket.path
            && record@.socket.parent == prepared_record(preparation, generation).socket.parent,
    ensures
        ({
            let again = reservation(address, canonical_parent, entries, Ok(parent));
            &&& again == Err::<Seq<char>, Seq<char>>(
                "shim socket path is already reserved by another live lifecycle: "@
                    + preparation.socket@.path,
            )
            &&& committed(entries, again, second) == entries
        }),
{
    let name = last_name(preparation.socket@.path)->0;
    law_claimed_socket_is_found(entries, None, parent, name, i);
}

/// Where a root holds nothing but records whose sockets have names, a second
/// preparation for a reserved socket is refused wherever the first one's record
/// stands.
pub proof fn law_second_preparation_is_refused(
    address: Seq<char>,
    canonical_parent: Result<Seq<char>, Seq<char>>,
    parent: FileIdentity,
    earlier: Seq<LifecycleRecord>,
    preparation: Preparation,
    generation: Seq<char>,
    records: Seq<LifecycleRecord>,
    i: int,
    second: LifecycleRecord,
)
    requires
        reservation(address, canonical_parent, stored(earlier), Ok(parent)) == Ok::<
            Seq<char>,
            Seq<char>,
        >(preparation.socket@.path),
        preparation.socket@.parent == parent,
        all_named(records),
        0 <= i < records.len(),
        records[i]@.phase != LifecyclePhase::Done,
        records[i]@.socket.path == prepared_record(preparation, generation).socket.path,
        records[i]@.socket.parent == prepared_record(preparation, generation).socket.parent,
    ensures
        ({
            let again = reservation(address, canonical_parent, stored(records), Ok(parent));
            &&& again == Err::<Seq<char>, Seq<char>>(
                "shim socket path is already reserved by another live lifecycle: "@
                    + preparation.socket@.path,
            )
            &&& committed(records, again, second) == records
        }),
{
    law_reserved_socket_is_refused(
        address,
        canonical_parent,
        parent,
        stored(earlier),
        preparation,
        generation,
        stored(records),
        i,
        Ok(Some(second)),
    );
}

/// A preparation records who the sandbox is prepared for and which server will
/// come, under the helper's first epoch; nothing has started, nothing is
/// allocated, and record and owners are of one generation.
pub proof fn law_preparation_records_what_it_was_given(
    preparation: Preparation,
    generation: Seq<char>,
)
    ensures
        ({
            let record = prepared(preparation, generation).record;
            let host = prepared(preparation, generation).host_owner;
            let runtime = prepared(preparation, generation).runtime_owner;
            &&& record.schema_version == 2
            &&& record.sequence == 1
            &&& record.generation == generation
            &&& record.phase == LifecyclePhase::Prepared
            &&& record.classification == preparation.classification
            &&& record.namespace == preparation.namespace@
            &&& record.instance_id == preparation.instance_id@
            &&& record.bundle == preparation.bundle@
            &&& record.bundle_identity == preparation.bundle_identity
            &&& record.created_at_ms == preparation.created_at_ms
            &&& record.takeover_claimed_at_ms is None
            &&& record.launch_nonce_sha256 == hex(sha256(preparation.nonce@))
            &&& record.expected_server_path == preparation.executable@
            &&& record.expected_server_executable == preparation.executable_identity
            &&& record.helper == preparation.helper@
            &&& record.server is None
            &&& record.target == preparation.target@
            &&& record.socket == preparation.socket@
            &&& record.operation_owner.kind == OwnerKind::Helper
            &&& record.operation_owner.epoch == 1
            &&& record.operation_owner.identity == preparation.helper@
            &&& record.operation_owner.revoked_epoch is None
            &&& record.create_state == CreateState::Unstarted
            &&& record.create_fingerprint is None
            &&& record.create_waiters == 0
            &&& record.failure is None
            &&& record.containment_breach is None
            &&& record.vmm_worker is None
            &&& record.degraded_reason is None
            &&& host.schema_version == 2
            &&& host.generation == generation
            &&& host.namespace == preparation.namespace@
            &&& host.instance_id == preparation.instance_id@
            &&& host.state == HostOwnerState::Empty
            &&& host.target == preparation.target@
            &&& host.original_cgroup == preparation.helper@.cgroup
            &&& host.server is None
            &&& host.controllers is None
            &&& runtime.schema_version == 2
            &&& runtime.generation_id == generation
        }),
{
}

/// The server that is expected is the one that is started: its command line
/// begins with the executable and ends with the socket's address, and it is the
/// debugging one exactly where that was asked for.
pub proof fn law_expected_server_is_the_started_one(
    preparation: Preparation,
    generation: Seq<char>,
)
    ensures
        ({
            let argv = prepared(preparation, generation).record.expected_server_argv;
            &&& argv == server_argv(
                preparation.executable@,
                preparation.namespace@,
                preparation.instance_id@,
                preparation.containerd_grpc_address@,
                preparation.address@,
                preparation.debug,
            )
            &&& prepared(preparation, generation).record.expected_server_command_sha256 == hex(
                sha256(command_line(argv)),
            )
        }),
{
}

/// A free socket is reserved under its own path, and a claimed one is refused
/// with it.
pub proof fn law_free_socket_is_reserved(
    address: Seq<char>,
    canonical_parent: Result<Seq<char>, Seq<char>>,
    records: Seq<Result<Option<LifecycleRecord>, String>>,
    parent: Result<FileIdentity, String>,
    socket: Seq<char>,
)
    requires
        address_path(address, canonical_parent) == Ok::<Seq<char>, Seq<char>>(socket),
    ensures
        reserved_by_another(records, None, socket, parent) == Ok::<bool, Seq<char>>(false)
            ==> reservation(address, canonical_parent, records, parent) == Ok::<
            Seq<char>,
            Seq<char>,
        >(socket),
        reserved_by_another(records, None, socket, parent) == Ok::<bool, Seq<char>>(true)
            ==> reservation(address, canonical_parent, records, parent) == Err::<
            Seq<char>,
            Seq<char>,
        >("shim socket path is already reserved by another live lifecycle: "@ + socket),
        reserved_by_another(records, None, socket, parent) is Err ==> reservation(
            address,
            canonical_parent,
            records,
            parent,
        ) is Err,
{
}

/// A lifecycle's key names its sandbox and its bundle, by path and by identity.
pub proof fn law_keys_name_sandbox_and_bundle(preparation: Preparation)
    ensures
        prepared_key(preparation) == hex(
            sha256(
                prefixed_all(
                    seq![
                        vstd::utf8::encode_utf8(preparation.namespace@),
                        vstd::utf8::encode_utf8(preparation.instance_id@),
                        vstd::utf8::encode_utf8(preparation.bundle@),
                        crate::digest::be_bytes(preparation.bundle_identity.device),
                        crate::digest::be_bytes(preparation.bundle_identity.inode),
                    ],
                ),
            ),
        ),
{
}

} // verus!
