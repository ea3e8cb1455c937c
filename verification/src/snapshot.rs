//! Versioned domain snapshots, independent of any runtime handles, and
//! their compressed framing.

use vstd::prelude::*;

use crate::entity::{EntityId, EntityIdAllocator};
use crate::events::first_repeat;
use crate::text::{is_blank, text_is_blank};
use crate::time::{SimClock, SimInstant};

verus! {

/// Current snapshot schema version.
pub const SNAPSHOT_SCHEMA_VERSION: u16 = 1;

/// The zstd compression level used for snapshots.
pub const SNAPSHOT_COMPRESSION_LEVEL: i32 = 3;

/// The eight bytes `PLMSNP01` that open every encoded snapshot.
pub open spec fn snapshot_magic() -> Seq<u8> {
    seq![0x50u8, 0x4Cu8, 0x4Du8, 0x53u8, 0x4Eu8, 0x50u8, 0x30u8, 0x31u8]
}

/// Minimal persistent entity state.
#[derive(Clone, Debug, PartialEq, Eq, Structural)]
pub struct EntitySnapshot {
    /// Stable persistent identity.
    pub entity_id: EntityId,
    /// Component value for round-trip measurement.
    pub state: u64,
}

/// Persistable scheduled-work representation without runtime tokens or heap nodes.
#[derive(Clone, Debug, PartialEq, Eq)]
pub struct PendingWorkSnapshot {
    /// Stable target identity.
    pub entity_id: EntityId,
    /// Absolute due instant.
    pub due: SimInstant,
    /// Stable work-kind key.
    pub work_type: String,
}

/// Versioned domain snapshot independent of ECS runtime handles.
#[derive(Clone, Debug, PartialEq, Eq)]
pub struct Snapshot {
    schema_version: u16,
    /// Simulation clock.
    pub clock: SimClock,
    /// Persistent identity allocator progress.
    pub entity_allocator: EntityIdAllocator,
    /// Stable entity state.
    pub entities: Vec<EntitySnapshot>,
    /// Stable pending work, reconstructed into a scheduler on restore.
    pub pending_work: Vec<PendingWorkSnapshot>,
}

/// The abstract content of a [`Snapshot`].
pub struct SnapshotView {
    pub schema_version: u16,
    pub clock: SimClock,
    pub next_entity: u64,
    pub entities: Seq<EntitySnapshot>,
    pub pending_work: Seq<PendingWorkSnapshot>,
}

impl View for Snapshot {
    type V = SnapshotView;

    closed spec fn view(&self) -> SnapshotView {
        SnapshotView {
            schema_version: self.schema_version,
            clock: self.clock,
            next_entity: self.entity_allocator@,
            entities: self.entities@,
            pending_work: self.pending_work@,
        }
    }
}

/// Snapshot encoding, corruption, version, or invariant failure.
#[derive(Debug)]
pub enum SnapshotError {
    /// Invalid file magic.
    InvalidMagic,
    /// Unsupported schema.
    UnsupportedVersion(u16),
    /// Duplicate stable entity.
    DuplicateEntity(EntityId),
    /// Pending work references no entity.
    DanglingWork(EntityId),
    /// Blank work type.
    EmptyWorkType,
    /// Allocator could reuse an existing ID.
    AllocatorWouldReuse(EntityId),
    /// Extra decoded bytes.
    TrailingBytes,
    /// Binary encode failure.
    Encode(bincode::error::EncodeError),
    /// Binary decode failure.
    Decode(bincode::error::DecodeError),
    /// Compression I/O failure.
    Io(std::io::Error),
}

/// The identities of a list of entity snapshots, in order.
pub open spec fn entity_ids(entities: Seq<EntitySnapshot>) -> Seq<EntityId> {
    entities.map_values(|e: EntitySnapshot| e.entity_id)
}

/// The first pending-work problem, checking items in order and, for each,
/// a dangling target before a blank work type.
pub open spec fn pending_work_error(
    work: Seq<PendingWorkSnapshot>,
    ids: Seq<EntityId>,
) -> Option<SnapshotError>
    decreases work.len(),
{
    if work.len() == 0 {
        None
    } else if !ids.contains(work[0].entity_id) {
        Some(SnapshotError::DanglingWork(work[0].entity_id))
    } else if is_blank(work[0].work_type@) {
        Some(SnapshotError::EmptyWorkType)
    } else {
        pending_work_error(work.drop_first(), ids)
    }
}

/// The largest raw identity among the entities (zero for none).
pub open spec fn max_entity_raw(entities: Seq<EntitySnapshot>) -> u64
    decreases entities.len(),
{
    if entities.len() == 0 {
        0
    } else {
        let rest = max_entity_raw(entities.drop_last());
        if entities.last().entity_id@ > rest {
            entities.last().entity_id@
        } else {
            rest
        }
    }
}

/// The first schema or stable-identity violation of a snapshot, in the
/// order version, duplicate entity, pending work, allocator reuse.
pub open spec fn snapshot_error(v: SnapshotView) -> Option<SnapshotError> {
    if v.schema_version != SNAPSHOT_SCHEMA_VERSION {
        Some(SnapshotError::UnsupportedVersion(v.schema_version))
    } else if first_repeat(entity_ids(v.entities)) is Some {
        Some(SnapshotError::DuplicateEntity(first_repeat(entity_ids(v.entities))->Some_0))
    } else if pending_work_error(v.pending_work, entity_ids(v.entities)) is Some {
        pending_work_error(v.pending_work, entity_ids(v.entities))
    } else if v.entities.len() > 0 && v.next_entity != 0 && v.next_entity <= max_entity_raw(
        v.entities,
    ) {
        Some(SnapshotError::AllocatorWouldReuse(
            choose|id: EntityId| id@ == max_entity_raw(v.entities),
        ))
    } else {
        None
    }
}

/// A snapshot error that reports an invariant, not an encoding failure,
/// compared by kind and payload.
pub open spec fn same_invariant_error(a: SnapshotError, b: SnapshotError) -> bool {
    match (a, b) {
        (SnapshotError::UnsupportedVersion(x), SnapshotError::UnsupportedVersion(y)) => x == y,
        (SnapshotError::DuplicateEntity(x), SnapshotError::DuplicateEntity(y)) => x == y,
        (SnapshotError::DanglingWork(x), SnapshotError::DanglingWork(y)) => x == y,
        (SnapshotError::EmptyWorkType, SnapshotError::EmptyWorkType) => true,
        (SnapshotError::AllocatorWouldReuse(x), SnapshotError::AllocatorWouldReuse(y)) => x@ == y@,
        _ => false,
    }
}

/// Whether `id` is among the entities.
fn has_entity(entities: &Vec<EntitySnapshot>, id: EntityId) -> (found: bool)
    ensures
        found == entity_ids(entities@).contains(id),
{
    let mut i: usize = 0;
    while i < entities.len()
        invariant
            0 <= i <= entities.len(),
            forall|k: int| 0 <= k < i ==> entities@[k].entity_id != id,
        decreases entities.len() - i,
    {
        if entities[i].entity_id == id {
            assert(entity_ids(entities@)[i as int] == id);
            return true;
        }
        i = i + 1;
    }
    proof {
        if entity_ids(entities@).contains(id) {
            let k = choose|k: int| 0 <= k < entity_ids(entities@).len() && entity_ids(entities@)[k] == id;
            assert(entities@[k].entity_id == id);
        }
    }
    false
}

/// The identities of the entities, in order.
fn collect_entity_ids(entities: &Vec<EntitySnapshot>) -> (ids: Vec<EntityId>)
    ensures
        ids@ == entity_ids(entities@),
{
    let mut ids: Vec<EntityId> = Vec::new();
    let mut i: usize = 0;
    while i < entities.len()
        invariant
            0 <= i <= entities.len(),
            ids@ == entity_ids(entities@.subrange(0, i as int)),
        decreases entities.len() - i,
    {
        ids.push(entities[i].entity_id);
        proof {
            assert(entity_ids(entities@.subrange(0, i as int + 1)) =~= entity_ids(
                entities@.subrange(0, i as int),
            ).push(entities@[i as int].entity_id));
        }
        i = i + 1;
    }
    assert(entities@.subrange(0, entities@.len() as int) =~= entities@);
    ids
}

/// The entity with the largest identity, if any.
fn max_entity(entities: &Vec<EntitySnapshot>) -> (max: Option<EntityId>)
    ensures
        match max {
            Some(id) => entities@.len() > 0 && id@ == max_entity_raw(entities@),
            None => entities@.len() == 0,
        },
{
    if entities.len() == 0 {
        return None;
    }
    let mut best = entities[0].entity_id;
    let first_raw = best.get();
    let mut i: usize = 1;
    proof {
        assert(entities@.subrange(0, 1).drop_last() =~= Seq::<EntitySnapshot>::empty());
        let one = entities@.subrange(0, 1);
        assert(one.last() == entities@[0]);
        assert(max_entity_raw(one.drop_last()) == 0);
    }
    while i < entities.len()
        invariant
            1 <= i <= entities.len(),
            best@ == max_entity_raw(entities@.subrange(0, i as int)),
        decreases entities.len() - i,
    {
        let next = entities[i].entity_id;
        proof {
            assert(entities@.subrange(0, i as int + 1).drop_last() =~= entities@.subrange(
                0,
                i as int,
            ));
        }
        if next.get() > best.get() {
            best = next;
        }
        i = i + 1;
    }
    assert(entities@.subrange(0, entities@.len() as int) =~= entities@);
    Some(best)
}

impl Snapshot {
    /// Reassembles a snapshot from decoded parts without validating it.
    pub fn from_parts(
        schema_version: u16,
        clock: SimClock,
        entity_allocator: EntityIdAllocator,
        entities: Vec<EntitySnapshot>,
        pending_work: Vec<PendingWorkSnapshot>,
    ) -> (snapshot: Snapshot)
        ensures
            snapshot@ == (SnapshotView {
                schema_version,
                clock,
                next_entity: entity_allocator@,
                entities: entities@,
                pending_work: pending_work@,
            }),
    {
        Snapshot { schema_version, clock, entity_allocator, entities, pending_work }
    }

    /// The schema version the snapshot was written with.
    pub fn schema_version(&self) -> (version: u16)
        ensures
            version == self@.schema_version,
    {
        self.schema_version
    }

    /// Creates and validates a schema-version-1 snapshot.
    ///
    /// Fails with the first duplicate ID, dangling work, blank work type, or
    /// allocator state that could reuse a restored ID.
    pub fn new(
        clock: SimClock,
        entity_allocator: EntityIdAllocator,
        entities: Vec<EntitySnapshot>,
        pending_work: Vec<PendingWorkSnapshot>,
    ) -> (snapshot: Result<Snapshot, SnapshotError>)
        ensures
            ({
                let v = SnapshotView {
                    schema_version: SNAPSHOT_SCHEMA_VERSION,
                    clock,
                    next_entity: entity_allocator@,
                    entities: entities@,
                    pending_work: pending_work@,
                };
                match snapshot {
                    Ok(s) => snapshot_error(v) is None && s@ == v,
                    Err(e) => snapshot_error(v) is Some && same_invariant_error(
                        e,
                        snapshot_error(v)->Some_0,
                    ),
                }
            }),
    {
        let value = Snapshot {
            schema_version: SNAPSHOT_SCHEMA_VERSION,
            clock,
            entity_allocator,
            entities,
            pending_work,
        };
        match value.validate() {
            Ok(()) => Ok(value),
            Err(error) => Err(error),
        }
    }

    /// Validates stable-identity and schema invariants, returning the first
    /// violation.
    pub fn validate(&self) -> (result: Result<(), SnapshotError>)
        ensures
            match result {
                Ok(()) => snapshot_error(self@) is None,
                Err(e) => snapshot_error(self@) is Some && same_invariant_error(
                    e,
                    snapshot_error(self@)->Some_0,
                ),
            },
    {
        if self.schema_version != SNAPSHOT_SCHEMA_VERSION {
            return Err(SnapshotError::UnsupportedVersion(self.schema_version));
        }
        let ids = collect_entity_ids(&self.entities);
        if let Some(duplicate) = crate::events::first_repeated(&ids) {
            return Err(SnapshotError::DuplicateEntity(duplicate));
        }
        let mut i: usize = 0;
        assert(self.pending_work@.subrange(0, self.pending_work@.len() as int) =~= self.pending_work@);
        while i < self.pending_work.len()
            invariant
                0 <= i <= self.pending_work.len(),
                ids@ == entity_ids(self.entities@),
                self@.schema_version == SNAPSHOT_SCHEMA_VERSION,
                first_repeat(entity_ids(self@.entities)) is None,
                pending_work_error(self.pending_work@, ids@) == pending_work_error(
                    self.pending_work@.subrange(i as int, self.pending_work@.len() as int),
                    ids@,
                ),
            decreases self.pending_work.len() - i,
        {
            let ghost rest = self.pending_work@.subrange(i as int, self.pending_work@.len() as int);
            assert(rest[0] == self.pending_work@[i as int]);
            let work = &self.pending_work[i];
            if !has_entity(&self.entities, work.entity_id) {
                return Err(SnapshotError::DanglingWork(work.entity_id));
            }
            if text_is_blank(work.work_type.as_str()) {
                return Err(SnapshotError::EmptyWorkType);
            }
            assert(rest.drop_first() =~= self.pending_work@.subrange(
                i as int + 1,
                self.pending_work@.len() as int,
            ));
            i = i + 1;
        }
        if let Some(maximum) = max_entity(&self.entities) {
            if let Some(next) = self.entity_allocator.next() {
                if next.get() <= maximum.get() {
                    return Err(SnapshotError::AllocatorWouldReuse(maximum));
                }
            }
        }
        Ok(())
    }
}

/// The bytes that zstd writes when compressing `raw` at `level`.
pub uninterp spec fn zstd_compressed(raw: Seq<u8>, level: i32) -> Seq<u8>;

/// The bytes that zstd reads back out of `compressed`.
pub uninterp spec fn zstd_decompressed(compressed: Seq<u8>) -> Seq<u8>;

/// `zstd::stream::encode_all` over an in-memory cursor. Reading from a
/// cursor and writing into a `Vec` cannot fail, and zstd clamps the level
/// into its supported range, so compressing at a level from 1 through 22
/// succeeds.
#[verifier::external_body]
fn zstd_compress(raw: &[u8], level: i32) -> (compressed: Result<Vec<u8>, std::io::Error>)
    ensures
        compressed matches Ok(bytes) ==> bytes@ == zstd_compressed(raw@, level),
        1 <= level <= 22 ==> compressed is Ok,
{
    zstd::stream::encode_all(std::io::Cursor::new(raw), level)
}

/// `zstd::stream::decode_all` over an in-memory cursor. Decompression is
/// lossless: bytes that `encode_all` wrote at a level from 1 through 19 are
/// a zstd frame within the decoder's default window, and reading them back
/// succeeds with the original bytes.
#[verifier::external_body]
fn zstd_decompress(compressed: &[u8]) -> (raw: Result<Vec<u8>, std::io::Error>)
    ensures
        raw matches Ok(bytes) ==> bytes@ == zstd_decompressed(compressed@),
        raw matches Ok(bytes) ==> forall|original: Seq<u8>, level: i32|
            compressed@ == zstd_compressed(original, level) ==> bytes@ == original,
        forall|original: Seq<u8>, level: i32|
            1 <= level <= 19 && compressed@ == zstd_compressed(original, level) ==> raw is Ok,
{
    zstd::stream::decode_all(std::io::Cursor::new(compressed))
}

/// The standard library's I/O error, carried through unchanged.
#[verifier::external_type_specification]
#[verifier::external_body]
pub struct ExIoError(std::io::Error);

/// The binary encoder's error, carried through unchanged.
#[verifier::external_type_specification]
#[verifier::external_body]
pub struct ExEncodeError(bincode::error::EncodeError);

/// The binary decoder's error, carried through unchanged.
#[verifier::external_type_specification]
#[verifier::external_body]
pub struct ExDecodeError(bincode::error::DecodeError);

/// Whether `bytes` are the magic prefix followed by `content` compressed
/// at a level from 1 through 19.
pub open spec fn framed_content(bytes: Seq<u8>, content: Seq<u8>) -> bool {
    exists|level: i32| 1 <= level <= 19 && bytes == snapshot_magic() + zstd_compressed(content, level)
}

/// Binary snapshot framing: the magic prefix followed by zstd-compressed
/// binary snapshot content. Turning a snapshot into binary content and back
/// is done by the serialization layer; this codec checks and frames bytes.
pub struct SnapshotCodec;

impl SnapshotCodec {
    /// Validates `snapshot`, compresses its binary content `raw`, and
    /// prefixes the magic.
    pub fn frame(snapshot: &Snapshot, raw: &[u8]) -> (encoded: Result<Vec<u8>, SnapshotError>)
        ensures
            match encoded {
                Ok(bytes) => {
                    &&& snapshot_error(snapshot@) is None
                    &&& bytes@ == snapshot_magic() + zstd_compressed(raw@, SNAPSHOT_COMPRESSION_LEVEL)
                    &&& framed_content(bytes@, raw@)
                },
                Err(e) => snapshot_error(snapshot@) is Some && same_invariant_error(
                    e,
                    snapshot_error(snapshot@)->Some_0,
                ),
            },
    {
        match snapshot.validate() {
            Ok(()) => {},
            Err(error) => return Err(error),
        }
        let mut compressed = match zstd_compress(raw, SNAPSHOT_COMPRESSION_LEVEL) {
            Ok(bytes) => bytes,
            Err(error) => return Err(SnapshotError::Io(error)),
        };
        let mut output: Vec<u8> = vec![0x50u8, 0x4Cu8, 0x4Du8, 0x53u8, 0x4Eu8, 0x50u8, 0x30u8, 0x31u8];
        assert(output@ =~= snapshot_magic());
        let ghost packed = compressed@;
        output.append(&mut compressed);
        assert(output@ == snapshot_magic() + packed);
        assert(framed_content(output@, raw@)) by {
            assert(1 <= SNAPSHOT_COMPRESSION_LEVEL <= 19);
        }
        Ok(output)
    }

    /// Checks the magic prefix and decompresses the binary snapshot content.
    pub fn unframe(bytes: &[u8]) -> (raw: Result<Vec<u8>, SnapshotError>)
        ensures
            match raw {
                Ok(content) => {
                    &&& bytes@.len() >= 8
                    &&& bytes@.subrange(0, 8) == snapshot_magic()
                    &&& content@ == zstd_decompressed(bytes@.subrange(8, bytes@.len() as int))
                    &&& forall|original: Seq<u8>, level: i32|
                        bytes@.subrange(8, bytes@.len() as int) == zstd_compressed(original, level)
                            ==> content@ == original
                },
                Err(SnapshotError::InvalidMagic) => !(bytes@.len() >= 8 && bytes@.subrange(0, 8)
                    == snapshot_magic()),
                Err(SnapshotError::Io(_)) => bytes@.len() >= 8 && bytes@.subrange(0, 8)
                    == snapshot_magic(),
                Err(_) => false,
            },
            forall|content: Seq<u8>|
                framed_content(bytes@, content) ==> (raw matches Ok(c) && c@ == content),
    {
        let magic: Vec<u8> = vec![0x50u8, 0x4Cu8, 0x4Du8, 0x53u8, 0x4Eu8, 0x50u8, 0x30u8, 0x31u8];
        assert(magic@ =~= snapshot_magic());
        if bytes.len() < 8 {
            return Err(SnapshotError::InvalidMagic);
        }
        let mut i: usize = 0;
        while i < 8
            invariant
                0 <= i <= 8,
                bytes@.len() >= 8,
                magic@ == snapshot_magic(),
                forall|k: int| 0 <= k < i ==> bytes@[k] == snapshot_magic()[k],
            decreases 8 - i,
        {
            if bytes[i] != magic[i] {
                return Err(SnapshotError::InvalidMagic);
            }
            i = i + 1;
        }
        assert(bytes@.subrange(0, 8) =~= snapshot_magic());
        let mut payload: Vec<u8> = Vec::new();
        let mut j: usize = 8;
        while j < bytes.len()
            invariant
                8 <= j <= bytes.len(),
                payload@ == bytes@.subrange(8, j as int),
            decreases bytes.len() - j,
        {
            payload.push(bytes[j]);
            assert(bytes@.subrange(8, j as int + 1) =~= bytes@.subrange(8, j as int).push(
                bytes@[j as int],
            ));
            j = j + 1;
        }
        assert forall|content: Seq<u8>, level: i32|
            1 <= level <= 19 && bytes@ == snapshot_magic() + zstd_compressed(content, level) implies
            payload@ == zstd_compressed(content, level) by {
            assert(bytes@.subrange(8, bytes@.len() as int) =~= zstd_compressed(content, level));
        }
        match zstd_decompress(payload.as_slice()) {
            Ok(content) => Ok(content),
            Err(error) => Err(SnapshotError::Io(error)),
        }
    }

    /// Accepts a decoded snapshot once the decoder consumed exactly the
    /// whole binary content and the snapshot validates.
    pub fn accept(snapshot: Snapshot, consumed: usize, content_len: usize) -> (accepted: Result<
        Snapshot,
        SnapshotError,
    >)
        ensures
            match accepted {
                Ok(s) => consumed == content_len && snapshot_error(snapshot@) is None && s@
                    == snapshot@,
                Err(SnapshotError::TrailingBytes) => consumed != content_len,
                Err(e) => consumed == content_len && snapshot_error(snapshot@) is Some
                    && same_invariant_error(e, snapshot_error(snapshot@)->Some_0),
            },
    {
        if consumed != content_len {
            return Err(SnapshotError::TrailingBytes);
        }
        match snapshot.validate() {
            Ok(()) => Ok(snapshot),
            Err(error) => Err(error),
        }
    }
}

/// Framing then unframing gives back the binary content: the bytes that
/// `frame` writes for `raw` are framed content, which `unframe` reads back
/// as exactly `raw`, without failing.
pub proof fn law_frame_round_trip(raw: Seq<u8>, framed: Seq<u8>)
    requires
        framed == snapshot_magic() + zstd_compressed(raw, SNAPSHOT_COMPRESSION_LEVEL),
    ensures
        framed_content(framed, raw),
        framed.subrange(0, 8) == snapshot_magic(),
{
    assert(framed.subrange(0, 8) =~= snapshot_magic());
    assert(1 <= SNAPSHOT_COMPRESSION_LEVEL <= 19);
}

/// Every entity's raw identity is at most the largest one.
proof fn lemma_max_entity_raw_bounds(entities: Seq<EntitySnapshot>, i: int)
    requires
        0 <= i < entities.len(),
    ensures
        entities[i].entity_id@ <= max_entity_raw(entities),
    decreases entities.len(),
{
    if i < entities.len() - 1 {
        lemma_max_entity_raw_bounds(entities.drop_last(), i);
        assert(entities.drop_last()[i] == entities[i]);
    }
}

/// A valid snapshot's allocator never hands out a restored identity: its
/// next identity lies above every entity it holds, or the identity space is
/// spent; and every piece of pending work targets one of its entities.
pub proof fn law_valid_snapshot_never_reuses_ids(v: SnapshotView)
    requires
        snapshot_error(v) is None,
    ensures
        forall|i: int|
            0 <= i < v.entities.len() ==> v.next_entity == 0 || v.next_entity
                > (#[trigger] v.entities[i]).entity_id@,
        forall|j: int|
            0 <= j < v.pending_work.len() ==> entity_ids(v.entities).contains(
                (#[trigger] v.pending_work[j]).entity_id,
            ),
{
    assert forall|i: int|
        0 <= i < v.entities.len() implies v.next_entity == 0 || v.next_entity
            > (#[trigger] v.entities[i]).entity_id@ by {
        lemma_max_entity_raw_bounds(v.entities, i);
    }
    assert forall|j: int|
        0 <= j < v.pending_work.len() implies entity_ids(v.entities).contains(
            (#[trigger] v.pending_work[j]).entity_id,
        ) by {
        lemma_pending_work_targets_known(v.pending_work, entity_ids(v.entities), j);
    }
}

/// Work that passes the pending-work check targets known entities.
proof fn lemma_pending_work_targets_known(work: Seq<PendingWorkSnapshot>, ids: Seq<EntityId>, j: int)
    requires
        pending_work_error(work, ids) is None,
        0 <= j < work.len(),
    ensures
        ids.contains(work[j].entity_id),
    decreases work.len(),
{
    if j > 0 {
        lemma_pending_work_targets_known(work.drop_first(), ids, j - 1);
        assert(work.drop_first()[j - 1] == work[j]);
    }
}

} // verus!
