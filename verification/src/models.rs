//! The shapes of the service's JSON replies, and the decoders that read them
//! out of a JSON document. Names on the wire are in lower camel case.

use vstd::prelude::*;
use vstd::string::*;
use crate::index::{lemma_without_text, without_text};
use crate::json::{Json, JsonValue};

verus! {

/// Where a blob's storage is reserved and for how long.
#[derive(Debug, Clone, PartialEq, Eq)]
pub struct StorageInfo {
    /// The object id of the storage reservation.
    pub id: String,
    /// The first epoch of the reservation.
    pub start_epoch: u64,
    /// The epoch at which the reservation ends.
    pub end_epoch: u64,
    /// The reserved size in bytes.
    pub storage_size: u64,
}

/// The mathematical content of a [`StorageInfo`].
pub ghost struct StorageInfoView {
    pub id: Seq<char>,
    pub start_epoch: u64,
    pub end_epoch: u64,
    pub storage_size: u64,
}

impl DeepView for StorageInfo {
    type V = StorageInfoView;

    open spec fn deep_view(&self) -> StorageInfoView {
        StorageInfoView {
            id: self.id@,
            start_epoch: self.start_epoch,
            end_epoch: self.end_epoch,
            storage_size: self.storage_size,
        }
    }
}

impl StorageInfo {
    /// What a JSON document holds as a `StorageInfo`: an object with
    /// `id`, `startEpoch`, `endEpoch`, `storageSize`, each of its type.
    pub open spec fn read(tree: JsonValue) -> Option<StorageInfoView> {
        if tree.text_at("id"@) is None || tree.number_at("startEpoch"@) is None || tree.number_at("endEpoch"@) is None || tree.number_at("storageSize"@) is None {
            None
        } else {
            Some(
                StorageInfoView {
                    id: tree.text_at("id"@)->Some_0,
                    start_epoch: tree.number_at("startEpoch"@)->Some_0,
                    end_epoch: tree.number_at("endEpoch"@)->Some_0,
                    storage_size: tree.number_at("storageSize"@)->Some_0,
                },
            )
        }
    }

    /// Decodes a `StorageInfo` from a JSON document.
    pub fn from_json(json: &Json) -> (decoded: Option<StorageInfo>)
        ensures
            decoded.deep_view() == StorageInfo::read(json@),
    {
        let id = json.text_at("id")?;
        let start_epoch = json.number_at("startEpoch")?;
        let end_epoch = json.number_at("endEpoch")?;
        let storage_size = json.number_at("storageSize")?;
        Some(StorageInfo { id, start_epoch, end_epoch, storage_size })
    }
}

/// The cost basis of a blob that was registered anew.
#[derive(Debug, Clone, PartialEq, Eq)]
pub struct RegisterFromScratch {
    /// The length of the encoded blob.
    pub encoded_length: u64,
    /// The number of epochs paid for.
    pub epochs_ahead: u64,
}

/// The mathematical content of a [`RegisterFromScratch`].
pub ghost struct RegisterFromScratchView {
    pub encoded_length: u64,
    pub epochs_ahead: u64,
}

impl DeepView for RegisterFromScratch {
    type V = RegisterFromScratchView;

    open spec fn deep_view(&self) -> RegisterFromScratchView {
        RegisterFromScratchView {
            encoded_length: self.encoded_length,
            epochs_ahead: self.epochs_ahead,
        }
    }
}

impl RegisterFromScratch {
    /// What a JSON document holds as a `RegisterFromScratch`: an object with
    /// `encodedLength`, `epochsAhead`, each of its type.
    pub open spec fn read(tree: JsonValue) -> Option<RegisterFromScratchView> {
        if tree.number_at("encodedLength"@) is None || tree.number_at("epochsAhead"@) is None {
            None
        } else {
            Some(
                RegisterFromScratchView {
                    encoded_length: tree.number_at("encodedLength"@)->Some_0,
                    epochs_ahead: tree.number_at("epochsAhead"@)->Some_0,
                },
            )
        }
    }

    /// Decodes a `RegisterFromScratch` from a JSON document.
    pub fn from_json(json: &Json) -> (decoded: Option<RegisterFromScratch>)
        ensures
            decoded.deep_view() == RegisterFromScratch::read(json@),
    {
        let encoded_length = json.number_at("encodedLength")?;
        let epochs_ahead = json.number_at("epochsAhead")?;
        Some(RegisterFromScratch { encoded_length, epochs_ahead })
    }
}

/// The chain event that certified a blob.
#[derive(Debug, Clone, PartialEq, Eq)]
pub struct Event {
    /// The digest of the transaction.
    pub tx_digest: String,
    /// The sequence number of the event in it.
    pub event_seq: String,
}

/// The mathematical content of a [`Event`].
pub ghost struct EventView {
    pub tx_digest: Seq<char>,
    pub event_seq: Seq<char>,
}

impl DeepView for Event {
    type V = EventView;

    open spec fn deep_view(&self) -> EventView {
        EventView {
            tx_digest: self.tx_digest@,
            event_seq: self.event_seq@,
        }
    }
}

impl Event {
    /// What a JSON document holds as a `Event`: an object with
    /// `txDigest`, `eventSeq`, each of its type.
    pub open spec fn read(tree: JsonValue) -> Option<EventView> {
        if tree.text_at("txDigest"@) is None || tree.text_at("eventSeq"@) is None {
            None
        } else {
            Some(
                EventView {
                    tx_digest: tree.text_at("txDigest"@)->Some_0,
                    event_seq: tree.text_at("eventSeq"@)->Some_0,
                },
            )
        }
    }

    /// Decodes a `Event` from a JSON document.
    pub fn from_json(json: &Json) -> (decoded: Option<Event>)
        ensures
            decoded.deep_view() == Event::read(json@),
    {
        let tx_digest = json.text_at("txDigest")?;
        let event_seq = json.text_at("eventSeq")?;
        Some(Event { tx_digest, event_seq })
    }
}

/// One member of a stored quilt.
#[derive(Debug, Clone, PartialEq, Eq)]
pub struct StoredQuiltBlob {
    /// The identifier under which the member was submitted.
    pub identifier: String,
    /// The patch id under which the member is read back.
    pub quilt_patch_id: String,
}

/// The mathematical content of a [`StoredQuiltBlob`].
pub ghost struct StoredQuiltBlobView {
    pub identifier: Seq<char>,
    pub quilt_patch_id: Seq<char>,
}

impl DeepView for StoredQuiltBlob {
    type V = StoredQuiltBlobView;

    open spec fn deep_view(&self) -> StoredQuiltBlobView {
        StoredQuiltBlobView {
            identifier: self.identifier@,
            quilt_patch_id: self.quilt_patch_id@,
        }
    }
}

impl StoredQuiltBlob {
    /// What a JSON document holds as a `StoredQuiltBlob`: an object with
    /// `identifier`, `quiltPatchId`, each of its type.
    pub open spec fn read(tree: JsonValue) -> Option<StoredQuiltBlobView> {
        if tree.text_at("identifier"@) is None || tree.text_at("quiltPatchId"@) is None {
            None
        } else {
            Some(
                StoredQuiltBlobView {
                    identifier: tree.text_at("identifier"@)->Some_0,
                    quilt_patch_id: tree.text_at("quiltPatchId"@)->Some_0,
                },
            )
        }
    }

    /// Decodes a `StoredQuiltBlob` from a JSON document.
    pub fn from_json(json: &Json) -> (decoded: Option<StoredQuiltBlob>)
        ensures
            decoded.deep_view() == StoredQuiltBlob::read(json@),
    {
        let identifier = json.text_at("identifier")?;
        let quilt_patch_id = json.text_at("quiltPatchId")?;
        Some(StoredQuiltBlob { identifier, quilt_patch_id })
    }
}

/// Identity and storage accounting of a registered blob.
#[derive(Debug, Clone, PartialEq, Eq)]
pub struct BlobObject {
    /// The object id of the blob on chain.
    pub id: String,
    /// The epoch in which the blob was registered.
    pub registered_epoch: u64,
    /// The id derived from the content, by which the blob is read back.
    pub blob_id: String,
    /// The size of the payload in bytes.
    pub size: u64,
    /// The tag of the encoding.
    pub encoding_type: String,
    /// The epoch in which the blob was certified, once it is.
    pub certified_epoch: Option<u64>,
    /// The storage that the blob occupies.
    pub storage: StorageInfo,
    /// Whether the blob can be deleted.
    pub deletable: bool,
}

/// The mathematical content of a [`BlobObject`].
pub ghost struct BlobObjectView {
    pub id: Seq<char>,
    pub registered_epoch: u64,
    pub blob_id: Seq<char>,
    pub size: u64,
    pub encoding_type: Seq<char>,
    pub certified_epoch: Option<u64>,
    pub storage: StorageInfoView,
    pub deletable: bool,
}

impl DeepView for BlobObject {
    type V = BlobObjectView;

    open spec fn deep_view(&self) -> BlobObjectView {
        BlobObjectView {
            id: self.id@,
            registered_epoch: self.registered_epoch,
            blob_id: self.blob_id@,
            size: self.size,
            encoding_type: self.encoding_type@,
            certified_epoch: self.certified_epoch,
            storage: self.storage.deep_view(),
            deletable: self.deletable,
        }
    }
}

/// What the member under `key` holds as a `StorageInfo`.
pub open spec fn storage_at(tree: JsonValue, key: Seq<char>) -> Option<StorageInfoView> {
    match tree.member(key) {
        Some(found) => StorageInfo::read(found),
        None => None,
    }
}

impl BlobObject {
    /// What a JSON document holds as a `BlobObject`: an object with `id`,
    /// `registeredEpoch`, `blobId`, `size`, `encodingType`, `storage` and
    /// `deletable`, each of its type, and with `certifiedEpoch` a number,
    /// `null` or left out.
    pub open spec fn read(tree: JsonValue) -> Option<BlobObjectView> {
        if tree.text_at("id"@) is None || tree.number_at("registeredEpoch"@) is None
            || tree.text_at("blobId"@) is None || tree.number_at("size"@) is None
            || tree.text_at("encodingType"@) is None || tree.optional_number_at(
            "certifiedEpoch"@,
        ) is None || storage_at(tree, "storage"@) is None || tree.flag_at("deletable"@) is None {
            None
        } else {
            Some(
                BlobObjectView {
                    id: tree.text_at("id"@)->Some_0,
                    registered_epoch: tree.number_at("registeredEpoch"@)->Some_0,
                    blob_id: tree.text_at("blobId"@)->Some_0,
                    size: tree.number_at("size"@)->Some_0,
                    encoding_type: tree.text_at("encodingType"@)->Some_0,
                    certified_epoch: tree.optional_number_at("certifiedEpoch"@)->Some_0,
                    storage: storage_at(tree, "storage"@)->Some_0,
                    deletable: tree.flag_at("deletable"@)->Some_0,
                },
            )
        }
    }

    /// Decodes a `BlobObject` from a JSON document.
    pub fn from_json(json: &Json) -> (decoded: Option<BlobObject>)
        ensures
            decoded.deep_view() == BlobObject::read(json@),
    {
        let id = json.text_at("id")?;
        let registered_epoch = json.number_at("registeredEpoch")?;
        let blob_id = json.text_at("blobId")?;
        let size = json.number_at("size")?;
        let encoding_type = json.text_at("encodingType")?;
        let certified_epoch = json.optional_number_at("certifiedEpoch")?;
        let storage = StorageInfo::from_json(json.get("storage")?)?;
        let deletable = json.flag_at("deletable")?;
        Some(
            BlobObject {
                id,
                registered_epoch,
                blob_id,
                size,
                encoding_type,
                certified_epoch,
                storage,
                deletable,
            },
        )
    }
}

/// How the storage of a newly created blob was obtained.
#[derive(Debug, Clone, PartialEq, Eq)]
pub struct ResourceOperation {
    /// Set where the blob was registered from scratch.
    pub register_from_scratch: Option<RegisterFromScratch>,
}

/// The mathematical content of a [`ResourceOperation`].
pub ghost struct ResourceOperationView {
    pub register_from_scratch: Option<RegisterFromScratchView>,
}

impl DeepView for ResourceOperation {
    type V = ResourceOperationView;

    open spec fn deep_view(&self) -> ResourceOperationView {
        ResourceOperationView { register_from_scratch: self.register_from_scratch.deep_view() }
    }
}

impl ResourceOperation {
    /// What a JSON document holds as a `ResourceOperation`: an object in
    /// which `registerFromScratch` is a `RegisterFromScratch`, `null` or
    /// left out.
    pub open spec fn read(tree: JsonValue) -> Option<ResourceOperationView> {
        if !(tree is Object) {
            None
        } else {
            match tree.optional("registerFromScratch"@) {
                None => Some(ResourceOperationView { register_from_scratch: None }),
                Some(found) => match RegisterFromScratch::read(found) {
                    Some(scratch) => Some(
                        ResourceOperationView { register_from_scratch: Some(scratch) },
                    ),
                    None => None,
                },
            }
        }
    }

    /// Decodes a `ResourceOperation` from a JSON document.
    pub fn from_json(json: &Json) -> (decoded: Option<ResourceOperation>)
        ensures
            decoded.deep_view() == ResourceOperation::read(json@),
    {
        match json {
            Json::Object(_) => {},
            _ => {
                return None;
            },
        }
        match json.get_optional("registerFromScratch") {
            None => Some(ResourceOperation { register_from_scratch: None }),
            Some(found) => {
                let scratch = RegisterFromScratch::from_json(found)?;
                Some(ResourceOperation { register_from_scratch: Some(scratch) })
            },
        }
    }
}

/// The outcome of a store request that registered the payload anew.
#[derive(Debug, Clone, PartialEq, Eq)]
pub struct NewlyCreated {
    /// The blob that was registered.
    pub blob_object: BlobObject,
    /// How its storage was obtained.
    pub resource_operation: ResourceOperation,
    /// What the registration cost.
    pub cost: u64,
}

/// The mathematical content of a [`NewlyCreated`].
pub ghost struct NewlyCreatedView {
    pub blob_object: BlobObjectView,
    pub resource_operation: ResourceOperationView,
    pub cost: u64,
}

impl DeepView for NewlyCreated {
    type V = NewlyCreatedView;

    open spec fn deep_view(&self) -> NewlyCreatedView {
        NewlyCreatedView {
            blob_object: self.blob_object.deep_view(),
            resource_operation: self.resource_operation.deep_view(),
            cost: self.cost,
        }
    }
}

/// What the member under `key` holds as a `BlobObject`.
pub open spec fn blob_object_at(tree: JsonValue, key: Seq<char>) -> Option<BlobObjectView> {
    match tree.member(key) {
        Some(found) => BlobObject::read(found),
        None => None,
    }
}

/// What the member under `key` holds as a `ResourceOperation`.
pub open spec fn resource_operation_at(tree: JsonValue, key: Seq<char>) -> Option<
    ResourceOperationView,
> {
    match tree.member(key) {
        Some(found) => ResourceOperation::read(found),
        None => None,
    }
}

impl NewlyCreated {
    /// What a JSON document holds as a `NewlyCreated`: an object with
    /// `blobObject`, `resourceOperation` and `cost`, each of its type.
    pub open spec fn read(tree: JsonValue) -> Option<NewlyCreatedView> {
        if blob_object_at(tree, "blobObject"@) is None || resource_operation_at(
            tree,
            "resourceOperation"@,
        ) is None || tree.number_at("cost"@) is None {
            None
        } else {
            Some(
                NewlyCreatedView {
                    blob_object: blob_object_at(tree, "blobObject"@)->Some_0,
                    resource_operation: resource_operation_at(tree, "resourceOperation"@)->Some_0,
                    cost: tree.number_at("cost"@)->Some_0,
                },
            )
        }
    }

    /// Decodes a `NewlyCreated` from a JSON document.
    pub fn from_json(json: &Json) -> (decoded: Option<NewlyCreated>)
        ensures
            decoded.deep_view() == NewlyCreated::read(json@),
    {
        let blob_object = BlobObject::from_json(json.get("blobObject")?)?;
        let resource_operation = ResourceOperation::from_json(json.get("resourceOperation")?)?;
        let cost = json.number_at("cost")?;
        Some(NewlyCreated { blob_object, resource_operation, cost })
    }
}

/// The outcome of a store request whose payload was stored and certified
/// before: nothing new was registered.
#[derive(Debug, Clone, PartialEq, Eq)]
pub struct AlreadyCertified {
    /// The id derived from the content, by which the blob is read back.
    pub blob_id: String,
    /// The event that certified the blob.
    pub event: Event,
    /// The epoch at which the blob's storage ends.
    pub end_epoch: u64,
}

/// The mathematical content of an [`AlreadyCertified`].
pub ghost struct AlreadyCertifiedView {
    pub blob_id: Seq<char>,
    pub event: EventView,
    pub end_epoch: u64,
}

impl DeepView for AlreadyCertified {
    type V = AlreadyCertifiedView;

    open spec fn deep_view(&self) -> AlreadyCertifiedView {
        AlreadyCertifiedView {
            blob_id: self.blob_id@,
            event: self.event.deep_view(),
            end_epoch: self.end_epoch,
        }
    }
}

/// What the member under `key` holds as an `Event`.
pub open spec fn event_at(tree: JsonValue, key: Seq<char>) -> Option<EventView> {
    match tree.member(key) {
        Some(found) => Event::read(found),
        None => None,
    }
}

impl AlreadyCertified {
    /// What a JSON document holds as an `AlreadyCertified`: an object with
    /// `blobId`, `event` and `endEpoch`, each of its type.
    pub open spec fn read(tree: JsonValue) -> Option<AlreadyCertifiedView> {
        if tree.text_at("blobId"@) is None || event_at(tree, "event"@) is None || tree.number_at(
            "endEpoch"@,
        ) is None {
            None
        } else {
            Some(
                AlreadyCertifiedView {
                    blob_id: tree.text_at("blobId"@)->Some_0,
                    event: event_at(tree, "event"@)->Some_0,
                    end_epoch: tree.number_at("endEpoch"@)->Some_0,
                },
            )
        }
    }

    /// Decodes an `AlreadyCertified` from a JSON document.
    pub fn from_json(json: &Json) -> (decoded: Option<AlreadyCertified>)
        ensures
            decoded.deep_view() == AlreadyCertified::read(json@),
    {
        let blob_id = json.text_at("blobId")?;
        let event = Event::from_json(json.get("event")?)?;
        let end_epoch = json.number_at("endEpoch")?;
        Some(AlreadyCertified { blob_id, event, end_epoch })
    }
}

/// The outcome of a store request: the payload was registered anew, or an
/// identical payload was certified before. A reply names one of the two.
#[derive(Debug, Clone, PartialEq, Eq)]
pub enum BlobStoreResult {
    NewlyCreated(NewlyCreated),
    AlreadyCertified(AlreadyCertified),
}

/// The mathematical content of a [`BlobStoreResult`].
pub ghost enum BlobStoreResultView {
    NewlyCreated(NewlyCreatedView),
    AlreadyCertified(AlreadyCertifiedView),
}

impl DeepView for BlobStoreResult {
    type V = BlobStoreResultView;

    open spec fn deep_view(&self) -> BlobStoreResultView {
        match self {
            BlobStoreResult::NewlyCreated(created) => BlobStoreResultView::NewlyCreated(
                created.deep_view(),
            ),
            BlobStoreResult::AlreadyCertified(certified) => BlobStoreResultView::AlreadyCertified(
                certified.deep_view(),
            ),
        }
    }
}

impl BlobStoreResultView {
    /// The id by which the stored payload is read back, whichever the outcome.
    pub open spec fn blob_id(self) -> Seq<char> {
        match self {
            BlobStoreResultView::NewlyCreated(created) => created.blob_object.blob_id,
            BlobStoreResultView::AlreadyCertified(certified) => certified.blob_id,
        }
    }
}

impl BlobStoreResult {
    /// What a JSON document holds as a `BlobStoreResult`: an object in which
    /// one of `newlyCreated` and `alreadyCertified` is there and of its type,
    /// and the other is `null` or left out. A document that names both, or
    /// neither, holds none.
    pub open spec fn read(tree: JsonValue) -> Option<BlobStoreResultView> {
        match (tree.optional("newlyCreated"@), tree.optional("alreadyCertified"@)) {
            (Some(created), None) => match NewlyCreated::read(created) {
                Some(outcome) => Some(BlobStoreResultView::NewlyCreated(outcome)),
                None => None,
            },
            (None, Some(certified)) => match AlreadyCertified::read(certified) {
                Some(outcome) => Some(BlobStoreResultView::AlreadyCertified(outcome)),
                None => None,
            },
            _ => None,
        }
    }

    /// Decodes a `BlobStoreResult` from a JSON document.
    pub fn from_json(json: &Json) -> (decoded: Option<BlobStoreResult>)
        ensures
            decoded.deep_view() == BlobStoreResult::read(json@),
    {
        match (json.get_optional("newlyCreated"), json.get_optional("alreadyCertified")) {
            (Some(created), None) => {
                let outcome = NewlyCreated::from_json(created)?;
                Some(BlobStoreResult::NewlyCreated(outcome))
            },
            (None, Some(certified)) => {
                let outcome = AlreadyCertified::from_json(certified)?;
                Some(BlobStoreResult::AlreadyCertified(outcome))
            },
            _ => None,
        }
    }

    /// The id by which the stored payload is read back, whichever the outcome.
    pub fn blob_id(&self) -> (id: &String)
        ensures
            id@ == self.deep_view().blob_id(),
    {
        match self {
            BlobStoreResult::NewlyCreated(created) => &created.blob_object.blob_id,
            BlobStoreResult::AlreadyCertified(certified) => &certified.blob_id,
        }
    }
}

/// The reply to storing a quilt: the outcome for the quilt as a whole and
/// one entry for each member.
#[derive(Debug, Clone, PartialEq, Eq)]
pub struct QuiltStoreResponse {
    /// The outcome of storing the quilt as one blob.
    pub blob_store_result: BlobStoreResult,
    /// The members, each with the patch id under which it is read back.
    pub stored_quilt_blobs: Vec<StoredQuiltBlob>,
}

/// The mathematical content of a [`QuiltStoreResponse`].
pub ghost struct QuiltStoreResponseView {
    pub blob_store_result: BlobStoreResultView,
    pub stored_quilt_blobs: Seq<StoredQuiltBlobView>,
}

impl DeepView for QuiltStoreResponse {
    type V = QuiltStoreResponseView;

    open spec fn deep_view(&self) -> QuiltStoreResponseView {
        QuiltStoreResponseView {
            blob_store_result: self.blob_store_result.deep_view(),
            stored_quilt_blobs: self.stored_quilt_blobs.deep_view(),
        }
    }
}

/// What the member under `key` holds as a `BlobStoreResult`.
pub open spec fn blob_store_result_at(tree: JsonValue, key: Seq<char>) -> Option<
    BlobStoreResultView,
> {
    match tree.member(key) {
        Some(found) => BlobStoreResult::read(found),
        None => None,
    }
}

/// What a sequence of JSON documents holds as members of a quilt: each of
/// them decoded, in the same order, if every one of them decodes.
pub open spec fn read_members(items: Seq<JsonValue>) -> Option<Seq<StoredQuiltBlobView>> {
    if forall|i: int| 0 <= i < items.len() ==> (#[trigger] StoredQuiltBlob::read(items[i])) is Some {
        Some(Seq::new(items.len(), |i: int| StoredQuiltBlob::read(items[i])->Some_0))
    } else {
        None
    }
}

/// What the member under `key` holds as the members of a quilt.
pub open spec fn members_at(tree: JsonValue, key: Seq<char>) -> Option<Seq<StoredQuiltBlobView>> {
    match tree.member(key) {
        Some(found) => match found.as_items() {
            Some(items) => read_members(items),
            None => None,
        },
        None => None,
    }
}

/// The patch id of the first member submitted under `identifier`.
pub open spec fn first_patch(members: Seq<StoredQuiltBlobView>, identifier: Seq<char>) -> Option<
    Seq<char>,
>
    decreases members.len(),
{
    if members.len() == 0 {
        None
    } else if members[0].identifier == identifier {
        Some(members[0].quilt_patch_id)
    } else {
        first_patch(members.drop_first(), identifier)
    }
}

/// How many members were submitted under `identifier`.
pub open spec fn occurrences(members: Seq<StoredQuiltBlobView>, identifier: Seq<char>) -> nat
    decreases members.len(),
{
    if members.len() == 0 {
        0
    } else {
        occurrences(members.drop_last(), identifier) + if members.last().identifier
            == identifier {
            1nat
        } else {
            0nat
        }
    }
}

/// How often `name` stands among `names`.
pub open spec fn name_count(names: Seq<Seq<char>>, name: Seq<char>) -> nat
    decreases names.len(),
{
    if names.len() == 0 {
        0
    } else {
        name_count(names.drop_last(), name) + if names.last() == name {
            1nat
        } else {
            0nat
        }
    }
}

/// The texts of a list of string slices.
pub open spec fn texts_of(names: Seq<&str>) -> Seq<Seq<char>> {
    Seq::new(names.len(), |i: int| names[i]@)
}

impl QuiltStoreResponseView {
    /// The patch id under which the member submitted as `identifier` is read
    /// back, if the reply lists it.
    pub open spec fn patch_id_of(self, identifier: Seq<char>) -> Option<Seq<char>> {
        first_patch(self.stored_quilt_blobs, identifier)
    }

    /// Whether the reply answers a submission of these identifiers: it lists
    /// as many members as were submitted, and each identifier as often as it
    /// was submitted.
    pub open spec fn answers(self, identifiers: Seq<Seq<char>>) -> bool {
        &&& self.stored_quilt_blobs.len() == identifiers.len()
        &&& forall|i: int|
            0 <= i < identifiers.len() ==> #[trigger] occurrences(
                self.stored_quilt_blobs,
                identifiers[i],
            ) == name_count(identifiers, identifiers[i])
    }
}

/// No patch is found exactly where no member carries the identifier.
pub proof fn lemma_first_patch_none(members: Seq<StoredQuiltBlobView>, identifier: Seq<char>)
    ensures
        first_patch(members, identifier) is None <==> forall|i: int|
            0 <= i < members.len() ==> (#[trigger] members[i]).identifier != identifier,
    decreases members.len(),
{
    if members.len() > 0 {
        let rest = members.drop_first();
        lemma_first_patch_none(rest, identifier);
        if members[0].identifier != identifier {
            if first_patch(rest, identifier) is None {
                assert forall|i: int| 0 <= i < members.len() implies (#[trigger] members[i]).identifier
                    != identifier by {
                    if i > 0 {
                        assert(members[i] == rest[i - 1]);
                    }
                }
            } else {
                let i = choose|i: int| 0 <= i < rest.len() && rest[i].identifier == identifier;
                assert(members[i + 1] == rest[i]);
            }
        }
    }
}

/// The count is zero exactly where no member carries the identifier.
pub proof fn lemma_occurrences_zero(members: Seq<StoredQuiltBlobView>, identifier: Seq<char>)
    ensures
        occurrences(members, identifier) == 0 <==> forall|i: int|
            0 <= i < members.len() ==> (#[trigger] members[i]).identifier != identifier,
    decreases members.len(),
{
    if members.len() > 0 {
        let rest = members.drop_last();
        lemma_occurrences_zero(rest, identifier);
        if members.last().identifier != identifier {
            if occurrences(rest, identifier) == 0 {
                assert forall|i: int| 0 <= i < members.len() implies (#[trigger] members[i]).identifier
                    != identifier by {
                    if i < rest.len() {
                        assert(members[i] == rest[i]);
                    }
                }
            } else {
                let i = choose|i: int| 0 <= i < rest.len() && rest[i].identifier == identifier;
                assert(members[i] == rest[i]);
            }
        }
    }
}

/// The identifiers of the members, in their order.
pub open spec fn member_names(members: Seq<StoredQuiltBlobView>) -> Seq<Seq<char>> {
    Seq::new(members.len(), |i: int| members[i].identifier)
}

/// The members under an identifier are counted as the identifier is among
/// the members' identifiers.
pub proof fn lemma_occurrences_are_counts(members: Seq<StoredQuiltBlobView>, name: Seq<char>)
    ensures
        occurrences(members, name) == name_count(member_names(members), name),
    decreases members.len(),
{
    if members.len() > 0 {
        lemma_occurrences_are_counts(members.drop_last(), name);
        assert(member_names(members).drop_last() =~= member_names(members.drop_last()));
    }
}

/// Taking a name out of a list takes as many items as the name was counted,
/// and leaves the count of every other name as it was.
pub proof fn lemma_count_without(names: Seq<Seq<char>>, taken: Seq<char>, name: Seq<char>)
    ensures
        without_text(names, taken).len() == names.len() - name_count(names, taken),
        name_count(without_text(names, taken), name) == if name == taken {
            0
        } else {
            name_count(names, name)
        },
    decreases names.len(),
{
    if names.len() > 0 {
        let rest = names.drop_last();
        lemma_count_without(rest, taken, name);
        if names.last() != taken {
            let kept = without_text(rest, taken).push(names.last());
            assert(kept.drop_last() =~= without_text(rest, taken));
        }
    }
}

/// Two lists of the same length in which every name of the second is
/// counted alike hold every name equally often.
pub proof fn lemma_same_counts(first: Seq<Seq<char>>, second: Seq<Seq<char>>)
    requires
        first.len() == second.len(),
        forall|i: int|
            0 <= i < second.len() ==> #[trigger] name_count(first, second[i]) == name_count(
                second,
                second[i],
            ),
    ensures
        forall|name: Seq<char>| #[trigger] name_count(first, name) == name_count(second, name),
    decreases second.len(),
{
    if second.len() == 0 {
        assert forall|name: Seq<char>| #[trigger] name_count(first, name) == name_count(
            second,
            name,
        ) by {
            assert(first =~= Seq::empty());
        }
    } else {
        let taken = second.last();
        let left = without_text(first, taken);
        let right = without_text(second, taken);
        lemma_name_count_positive(second, second.len() - 1);
        lemma_count_without(first, taken, taken);
        lemma_count_without(second, taken, taken);
        assert(name_count(first, second[second.len() - 1]) == name_count(second, taken));
        lemma_without_text(second, taken);
        assert forall|i: int| 0 <= i < right.len() implies #[trigger] name_count(left, right[i])
            == name_count(right, right[i]) by {
            let name = right[i];
            assert(right.contains(name));
            assert(name != taken);
            assert(second.contains(name));
            let k = choose|k: int| 0 <= k < second.len() && second[k] == name;
            assert(name_count(first, second[k]) == name_count(second, second[k]));
            lemma_count_without(first, taken, name);
            lemma_count_without(second, taken, name);
        }
        lemma_same_counts(left, right);
        assert forall|name: Seq<char>| #[trigger] name_count(first, name) == name_count(
            second,
            name,
        ) by {
            lemma_count_without(first, taken, name);
            lemma_count_without(second, taken, name);
            if name != taken {
                assert(name_count(left, name) == name_count(right, name));
            }
        }
    }
}

/// A reply that answers a submission lists every identifier exactly as
/// often as it was submitted, and no other: as multisets, the identifiers
/// of its members are those of the files.
pub proof fn lemma_answers_same_identifiers(
    response: QuiltStoreResponseView,
    identifiers: Seq<Seq<char>>,
)
    requires
        response.answers(identifiers),
    ensures
        forall|name: Seq<char>| #[trigger]
            occurrences(response.stored_quilt_blobs, name) == name_count(identifiers, name),
{
    let names = member_names(response.stored_quilt_blobs);
    assert forall|i: int| 0 <= i < identifiers.len() implies #[trigger] name_count(
        names,
        identifiers[i],
    ) == name_count(identifiers, identifiers[i]) by {
        lemma_occurrences_are_counts(response.stored_quilt_blobs, identifiers[i]);
        assert(occurrences(response.stored_quilt_blobs, identifiers[i]) == name_count(
            identifiers,
            identifiers[i],
        ));
    }
    lemma_same_counts(names, identifiers);
    assert forall|name: Seq<char>| #[trigger]
        occurrences(response.stored_quilt_blobs, name) == name_count(identifiers, name) by {
        lemma_occurrences_are_counts(response.stored_quilt_blobs, name);
        assert(name_count(names, name) == name_count(identifiers, name));
    }
}

/// A name that stands among the names is counted at least once.
pub proof fn lemma_name_count_positive(names: Seq<Seq<char>>, i: int)
    requires
        0 <= i < names.len(),
    ensures
        name_count(names, names[i]) >= 1,
    decreases names.len(),
{
    if i < names.len() - 1 {
        assert(names.drop_last()[i] == names[i]);
        lemma_name_count_positive(names.drop_last(), i);
    }
}

/// A reply that answers a submission lets every submitted identifier be
/// resolved to a patch id.
pub proof fn lemma_answered_identifiers_resolve(
    response: QuiltStoreResponseView,
    identifiers: Seq<Seq<char>>,
    i: int,
)
    requires
        response.answers(identifiers),
        0 <= i < identifiers.len(),
    ensures
        response.patch_id_of(identifiers[i]) is Some,
{
    lemma_name_count_positive(identifiers, i);
    assert(occurrences(response.stored_quilt_blobs, identifiers[i]) >= 1);
    lemma_occurrences_zero(response.stored_quilt_blobs, identifiers[i]);
    lemma_first_patch_none(response.stored_quilt_blobs, identifiers[i]);
}

fn members_from_json(items: &Vec<Json>) -> (decoded: Option<Vec<StoredQuiltBlob>>)
    ensures
        decoded.deep_view() == read_members(items.deep_view()),
{
    let mut members: Vec<StoredQuiltBlob> = Vec::new();
    let mut i: usize = 0;
    while i < items.len()
        invariant
            i <= items.len(),
            members@.len() == i,
            forall|j: int|
                0 <= j < i ==> StoredQuiltBlob::read(#[trigger] items.deep_view()[j]) == Some(
                    members@[j].deep_view(),
                ),
        decreases items.len() - i,
    {
        match StoredQuiltBlob::from_json(&items[i]) {
            Some(member) => members.push(member),
            None => {
                proof {
                    assert(StoredQuiltBlob::read(items.deep_view()[i as int]) is None);
                }
                return None;
            },
        }
        i += 1;
    }
    proof {
        let all = items.deep_view();
        assert forall|j: int| 0 <= j < all.len() implies (#[trigger] StoredQuiltBlob::read(
            all[j],
        )) is Some by {
            assert(StoredQuiltBlob::read(items.deep_view()[j]) == Some(members@[j].deep_view()));
        }
        assert(members.deep_view() =~= read_members(all)->Some_0) by {
            assert forall|j: int| 0 <= j < all.len() implies members.deep_view()[j]
                == StoredQuiltBlob::read(all[j])->Some_0 by {
                assert(StoredQuiltBlob::read(items.deep_view()[j]) == Some(
                    members@[j].deep_view(),
                ));
            }
        }
    }
    Some(members)
}

/// Counts how often `name` stands among `names`.
pub fn count_name(names: &[&str], name: &str) -> (count: usize)
    ensures
        count == name_count(texts_of(names@), name@),
{
    let ghost all = texts_of(names@);
    let mut count: usize = 0;
    let mut i: usize = 0;
    proof {
        assert(all.subrange(0, 0) =~= Seq::empty());
    }
    while i < names.len()
        invariant
            i <= names.len(),
            all == texts_of(names@),
            count <= i,
            count == name_count(all.subrange(0, i as int), name@),
        decreases names.len() - i,
    {
        let ghost upto = all.subrange(0, i + 1);
        proof {
            assert(upto.drop_last() =~= all.subrange(0, i as int));
            assert(upto.last() == names@[i as int]@);
        }
        if names[i].eq(name) {
            count += 1;
        }
        i += 1;
    }
    proof {
        assert(all.subrange(0, all.len() as int) =~= all);
    }
    count
}

impl QuiltStoreResponse {
    /// What a JSON document holds as a `QuiltStoreResponse`: an object with
    /// `blobStoreResult`, a `BlobStoreResult`, and `storedQuiltBlobs`, an
    /// array of members.
    pub open spec fn read(tree: JsonValue) -> Option<QuiltStoreResponseView> {
        if blob_store_result_at(tree, "blobStoreResult"@) is None || members_at(
            tree,
            "storedQuiltBlobs"@,
        ) is None {
            None
        } else {
            Some(
                QuiltStoreResponseView {
                    blob_store_result: blob_store_result_at(tree, "blobStoreResult"@)->Some_0,
                    stored_quilt_blobs: members_at(tree, "storedQuiltBlobs"@)->Some_0,
                },
            )
        }
    }

    /// Decodes a `QuiltStoreResponse` from a JSON document.
    pub fn from_json(json: &Json) -> (decoded: Option<QuiltStoreResponse>)
        ensures
            decoded.deep_view() == QuiltStoreResponse::read(json@),
    {
        let blob_store_result = BlobStoreResult::from_json(json.get("blobStoreResult")?)?;
        let items = json.get("storedQuiltBlobs")?.as_items()?;
        let stored_quilt_blobs = members_from_json(items)?;
        Some(QuiltStoreResponse { blob_store_result, stored_quilt_blobs })
    }

    /// Counts the members that were submitted as `identifier`.
    pub fn count_of(&self, identifier: &str) -> (count: usize)
        ensures
            count == occurrences(self.deep_view().stored_quilt_blobs, identifier@),
    {
        let ghost all = self.stored_quilt_blobs.deep_view();
        let mut count: usize = 0;
        let mut i: usize = 0;
        while i < self.stored_quilt_blobs.len()
            invariant
                i <= self.stored_quilt_blobs.len(),
                all == self.stored_quilt_blobs.deep_view(),
                count <= i,
                count == occurrences(all.subrange(0, i as int), identifier@),
            decreases self.stored_quilt_blobs.len() - i,
        {
            let ghost upto = all.subrange(0, i + 1);
            proof {
                assert(upto.drop_last() =~= all.subrange(0, i as int));
            }
            if self.stored_quilt_blobs[i].identifier.as_str().eq(identifier) {
                count += 1;
            }
            i += 1;
        }
        proof {
            assert(all.subrange(0, all.len() as int) =~= all);
        }
        count
    }

    /// Tells whether the reply answers a submission of these identifiers:
    /// it must list as many members as there were files, and each
    /// identifier as often as it was submitted.
    pub fn answers(&self, identifiers: &[&str]) -> (fits: bool)
        ensures
            fits == self.deep_view().answers(texts_of(identifiers@)),
    {
        let ghost names = texts_of(identifiers@);
        if self.stored_quilt_blobs.len() != identifiers.len() {
            return false;
        }
        let mut i: usize = 0;
        while i < identifiers.len()
            invariant
                i <= identifiers.len(),
                names == texts_of(identifiers@),
                self.stored_quilt_blobs.deep_view().len() == identifiers@.len(),
                forall|j: int|
                    0 <= j < i ==> #[trigger] occurrences(
                        self.deep_view().stored_quilt_blobs,
                        names[j],
                    ) == name_count(names, names[j]),
            decreases identifiers.len() - i,
        {
            if self.count_of(identifiers[i]) != count_name(identifiers, identifiers[i]) {
                proof {
                    assert(occurrences(self.deep_view().stored_quilt_blobs, names[i as int])
                        != name_count(names, names[i as int]));
                }
                return false;
            }
            i += 1;
        }
        true
    }

    /// Finds the patch id of the member that was submitted as `identifier`.
    /// Members are matched by identifier, not by position.
    pub fn patch_id_of(&self, identifier: &str) -> (found: Option<&String>)
        ensures
            found.deep_view() == self.deep_view().patch_id_of(identifier@),
    {
        let ghost all = self.stored_quilt_blobs.deep_view();
        let mut i: usize = 0;
        proof {
            assert(all.subrange(0, all.len() as int) =~= all);
        }
        while i < self.stored_quilt_blobs.len()
            invariant
                i <= self.stored_quilt_blobs.len(),
                all == self.stored_quilt_blobs.deep_view(),
                first_patch(all, identifier@) == first_patch(
                    all.subrange(i as int, all.len() as int),
                    identifier@,
                ),
            decreases self.stored_quilt_blobs.len() - i,
        {
            let ghost rest = all.subrange(i as int, all.len() as int);
            proof {
                assert(rest.drop_first() =~= all.subrange(i + 1, all.len() as int));
            }
            if self.stored_quilt_blobs[i].identifier.as_str().eq(identifier) {
                return Some(&self.stored_quilt_blobs[i].quilt_patch_id);
            }
            i += 1;
        }
        None
    }
}

/// Whether no two tags have the same name.
pub open spec fn distinct_names(tags: Seq<(Seq<char>, Seq<char>)>) -> bool {
    forall|i: int, j: int| 0 <= i < j < tags.len() ==> tags[i].0 != tags[j].0
}

/// Whether a tag named `name` is among `tags`.
pub open spec fn has_tag(tags: Seq<(Seq<char>, Seq<char>)>, name: Seq<char>) -> bool {
    exists|i: int| 0 <= i < tags.len() && tags[i].0 == name
}

/// The place of a tag named `name` among `tags`, where there is one.
pub open spec fn tag_place(tags: Seq<(Seq<char>, Seq<char>)>, name: Seq<char>) -> int {
    choose|i: int| 0 <= i < tags.len() && tags[i].0 == name
}

/// The tags after `name` has been given `value`: the tag keeps its place
/// where the name was there before, and comes last where it was not.
pub open spec fn with_tag(tags: Seq<(Seq<char>, Seq<char>)>, name: Seq<char>, value: Seq<char>) -> Seq<
    (Seq<char>, Seq<char>),
> {
    if has_tag(tags, name) {
        tags.update(tag_place(tags, name), (name, value))
    } else {
        tags.push((name, value))
    }
}

/// The value of the tag named `name`, where there is one.
pub open spec fn tag_value(tags: Seq<(Seq<char>, Seq<char>)>, name: Seq<char>) -> Option<
    Seq<char>,
> {
    if has_tag(tags, name) {
        Some(tags[tag_place(tags, name)].1)
    } else {
        None
    }
}

/// A description of one member of a quilt, sent along when the quilt is
/// stored: the identifier of the member and its tags. No two tags of a
/// member have the same name.
#[derive(Debug, Clone, PartialEq, Eq)]
pub struct QuiltMetadata {
    identifier: String,
    tags: Vec<(String, String)>,
}

/// The mathematical content of a [`QuiltMetadata`]; the tags in the order in
/// which they are written out.
pub ghost struct QuiltMetadataView {
    pub identifier: Seq<char>,
    pub tags: Seq<(Seq<char>, Seq<char>)>,
}

impl DeepView for QuiltMetadata {
    type V = QuiltMetadataView;

    closed spec fn deep_view(&self) -> QuiltMetadataView {
        QuiltMetadataView { identifier: self.identifier@, tags: self.tags.deep_view() }
    }
}

impl QuiltMetadata {
    /// Whether the description is well formed: no two tags have the same
    /// name. Every description that this module hands out is.
    pub open spec fn wf(self) -> bool {
        distinct_names(self.deep_view().tags)
    }

    /// Describes the member submitted as `identifier`, without tags so far.
    pub fn new(identifier: String) -> (metadata: QuiltMetadata)
        ensures
            metadata.deep_view() == (QuiltMetadataView { identifier: identifier@, tags: Seq::empty() }),
            metadata.wf(),
    {
        let tags: Vec<(String, String)> = Vec::new();
        assert(tags.deep_view() =~= Seq::empty());
        QuiltMetadata { identifier, tags }
    }

    /// The identifier of the member that is described.
    pub fn identifier(&self) -> (identifier: &String)
        ensures
            identifier@ == self.deep_view().identifier,
    {
        &self.identifier
    }

    /// The tags, in the order in which they are written out.
    pub fn tags(&self) -> (tags: &Vec<(String, String)>)
        ensures
            tags.deep_view() == self.deep_view().tags,
    {
        &self.tags
    }

    /// Gives the tag `name` the value `value` and hands back the value that
    /// it had before, if it had one.
    pub fn insert(&mut self, name: String, value: String) -> (replaced: Option<String>)
        requires
            old(self).wf(),
        ensures
            final(self).wf(),
            final(self).deep_view() == (QuiltMetadataView {
                identifier: old(self).deep_view().identifier,
                tags: with_tag(old(self).deep_view().tags, name@, value@),
            }),
            replaced.deep_view() == tag_value(old(self).deep_view().tags, name@),
    {
        let ghost before = self.tags.deep_view();
        let mut i: usize = 0;
        while i < self.tags.len()
            invariant
                i <= self.tags.len(),
                before == self.tags.deep_view(),
                before == old(self).deep_view().tags,
                distinct_names(before),
                self.identifier == old(self).identifier,
                forall|j: int| 0 <= j < i ==> before[j].0 != name@,
            decreases self.tags.len() - i,
        {
            if self.tags[i].0.as_str().eq(name.as_str()) {
                let previous = self.tags[i].1.clone();
                proof {
                    assert(before[i as int] == (self.tags@[i as int].0@, self.tags@[i as int].1@));
                    assert(tag_place(before, name@) == i);
                }
                self.tags.set(i, (name, value));
                proof {
                    assert(self.tags.deep_view() =~= before.update(i as int, (name@, value@)));
                }
                return Some(previous);
            }
            i += 1;
        }
        self.tags.push((name, value));
        proof {
            assert(self.tags.deep_view() =~= before.push((name@, value@)));
        }
        None
    }
}

} // verus!
