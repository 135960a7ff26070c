//! Records of the tag-based boot protocol.
//!
//! The kernel image publishes statically-placed request records, each tagged
//! with two fixed magic identifiers, a protocol-specific sub-identifier and
//! a revision number. The bootloader locates these by scanning the binary
//! and fills in a pointer to a matching response record; unsupported
//! requests are left untouched. The types here are the decoded, validated
//! forms of those records: placing them in their linker section and
//! following the raw response pointers is left to the unverified
//! surroundings, which hand the library plain values.

use vstd::prelude::*;

verus! {

/// The base revision of the tag-based boot protocol that this kernel
/// supports.
pub const LIMINE_BASE_REVISION: u64 = 2;

/// The first magic number identifying a request record.
pub const LIMINE_MAGIC_0: u64 = 0xc7b1dd30df4c8b88;

/// The second magic number identifying a request record.
pub const LIMINE_MAGIC_1: u64 = 0x0a82e883a194f07b;

/// The first word of the base-revision compatibility tag.
pub const LIMINE_BASE_REVISION_MAGIC_0: u64 = 0xf9562b2d5c95a6c8;

/// The second word of the base-revision compatibility tag.
pub const LIMINE_BASE_REVISION_MAGIC_1: u64 = 0x6a7b384944536bdc;

/// Returns the three-word base-revision compatibility tag as the kernel
/// image publishes it, declaring that it supports
/// [`LIMINE_BASE_REVISION`].
pub fn base_revision_tag() -> (r: [u64; 3])
    ensures
        r@ == seq![LIMINE_BASE_REVISION_MAGIC_0, LIMINE_BASE_REVISION_MAGIC_1, LIMINE_BASE_REVISION],
{
    let r = [LIMINE_BASE_REVISION_MAGIC_0, LIMINE_BASE_REVISION_MAGIC_1, LIMINE_BASE_REVISION];
    proof {
        assert(r@ =~= seq![
            LIMINE_BASE_REVISION_MAGIC_0,
            LIMINE_BASE_REVISION_MAGIC_1,
            LIMINE_BASE_REVISION,
        ]);
    }
    r
}

/// Returns whether the bootloader accepted the declared base revision: it
/// overwrites the tag's last word when it does, so an unchanged last word
/// means the declared revision was not honored and boot must halt.
pub fn base_revision_accepted(tag: &[u64; 3]) -> (r: bool)
    ensures
        r == (tag@[2] != LIMINE_BASE_REVISION),
{
    *vstd::array::array_index_get(tag, 2) != LIMINE_BASE_REVISION
}

/// A response record of the protocol: the revision the bootloader
/// advertises, and the protocol-specific body.
pub trait LimineResponse: Sized {
    /// The revision of the response that the kernel supports.
    spec fn spec_revision() -> u64;

    /// Returns the revision of the response that the kernel supports.
    fn revision_supported() -> (r: u64)
        ensures
            r == Self::spec_revision(),
    ;
}

/// A request record of the protocol: its identifying magic words and the
/// revision of the request that the kernel provides.
pub trait LimineRequest: Sized {
    /// The body type of the matching response record.
    type Response: LimineResponse;

    /// The identifier of the request: the two protocol magic words followed
    /// by the request's two sub-identifier words.
    spec fn spec_id() -> Seq<u64>;

    /// The revision of the request that the kernel provides.
    spec fn spec_revision() -> u64;

    /// Returns the identifier of the request.
    fn id() -> (r: [u64; 4])
        ensures
            r@ == Self::spec_id(),
    ;

    /// Returns the revision of the request that the kernel provides.
    fn revision() -> (r: u64)
        ensures
            r == Self::spec_revision(),
    ;
}

/// The base structure of a request record, as decoded from the kernel
/// image: the bootloader-filled response pointer becomes an optional
/// decoded response.
pub struct Request<T: LimineRequest> {
    /// The identifying magic words of the request.
    pub id: [u64; 4],
    /// The revision of the request that the kernel provides.
    pub revision: u64,
    /// The decoded response record, absent when the bootloader left the
    /// request untouched.
    pub response: Option<Response<<T as LimineRequest>::Response>>,
    /// The protocol-specific body of the request.
    pub body: T,
}

impl<T: LimineRequest> Request<T> {
    /// Returns the request record for `body`, with its identifier and
    /// revision filled in and no response.
    pub fn new(body: T) -> (r: Self)
        ensures
            r.id@ == T::spec_id(),
            r.revision == T::spec_revision(),
            r.response is None,
            r.body == body,
    {
        Request { id: T::id(), revision: T::revision(), response: None, body }
    }

    /// Returns the [`Response`] if the request was answered, and `None` iff
    /// the bootloader left the request untouched.
    pub fn response(&self) -> (r: Option<&Response<<T as LimineRequest>::Response>>)
        ensures
            r is Some <==> self.response is Some,
            r matches Some(resp) ==> self.response == Some(*resp),
    {
        self.response.as_ref()
    }
}

/// The base structure of a response record.
pub struct Response<T: LimineResponse> {
    /// The revision of the response that the bootloader advertises.
    pub revision: u64,
    /// The protocol-specific body of the response.
    pub body: T,
}

impl<T: LimineResponse> Response<T> {
    /// Returns the body of the response, and `None` iff the advertised
    /// revision is below the revision the kernel compiled against, in which
    /// case the response must be treated as unsupported.
    pub fn body(&self) -> (r: Option<&T>)
        ensures
            r is Some <==> self.revision >= T::spec_revision(),
            r matches Some(b) ==> *b == self.body,
    {
        if !self.is_supported() {
            return None;
        }

        Some(&self.body)
    }

    /// Returns whether the response is usable: its advertised revision is
    /// at least the revision the kernel compiled against.
    pub fn is_supported(&self) -> (r: bool)
        ensures
            r == (self.revision >= T::spec_revision()),
    {
        self.revision() >= T::revision_supported()
    }

    /// Returns the revision of the response that the bootloader advertises.
    pub fn revision(&self) -> (r: u64)
        ensures
            r == self.revision,
    {
        self.revision
    }
}

/// A request to enter the kernel at the given address instead of the
/// image's own entry point.
#[derive(Clone, Copy, Debug, PartialEq, Eq, Structural)]
pub struct EntryPointRequest {
    /// The address of the entry function the bootloader should call.
    pub entry_point: crate::memory::VirtualAddress,
}

impl EntryPointRequest {
    /// Returns an [`EntryPointRequest`] for the entry function at
    /// `entry_point`.
    pub fn new(entry_point: crate::memory::VirtualAddress) -> (r: Self)
        ensures
            r.entry_point == entry_point,
    {
        EntryPointRequest { entry_point }
    }
}

impl LimineRequest for EntryPointRequest {
    type Response = EntryPointResponse;

    open spec fn spec_id() -> Seq<u64> {
        seq![LIMINE_MAGIC_0, LIMINE_MAGIC_1, 0x13d86c035a1cd3e1, 0x2b0caa89d8f3026a]
    }

    open spec fn spec_revision() -> u64 {
        0
    }

    fn id() -> (r: [u64; 4]) {
        let r = [LIMINE_MAGIC_0, LIMINE_MAGIC_1, 0x13d86c035a1cd3e1, 0x2b0caa89d8f3026a];
        proof {
            assert(r@ =~= Self::spec_id());
        }
        r
    }

    fn revision() -> (r: u64) {
        0
    }
}

/// The (empty) body of the response to an [`EntryPointRequest`].
#[derive(Clone, Copy, Debug, PartialEq, Eq, Structural)]
pub struct EntryPointResponse;

impl LimineResponse for EntryPointResponse {
    open spec fn spec_revision() -> u64 {
        0
    }

    fn revision_supported() -> (r: u64) {
        0
    }
}

/// A request for the memory map from the bootloader.
#[derive(Clone, Copy, Debug, PartialEq, Eq, Structural)]
pub struct MemoryMapRequest;

impl MemoryMapRequest {
    /// Returns a [`MemoryMapRequest`].
    pub fn new() -> (r: Self) {
        MemoryMapRequest
    }
}

impl LimineRequest for MemoryMapRequest {
    type Response = MemoryMapResponse;

    open spec fn spec_id() -> Seq<u64> {
        seq![LIMINE_MAGIC_0, LIMINE_MAGIC_1, 0x67cf3d9d378a806f, 0xe304acdfc50c3c62]
    }

    open spec fn spec_revision() -> u64 {
        0
    }

    fn id() -> (r: [u64; 4]) {
        let r = [LIMINE_MAGIC_0, LIMINE_MAGIC_1, 0x67cf3d9d378a806f, 0xe304acdfc50c3c62];
        proof {
            assert(r@ =~= Self::spec_id());
        }
        r
    }

    fn revision() -> (r: u64) {
        0
    }
}

/// The body of the response to a [`MemoryMapRequest`]: the decoded memory
/// map entries. The raw record advertises a pointer and count, which the
/// unverified surroundings validate as non-null and non-empty before
/// producing the entries.
#[derive(Clone, Debug, PartialEq, Eq)]
pub struct MemoryMapResponse {
    /// The decoded memory map entries, in the bootloader's order.
    pub entries: Vec<MemoryMapEntry>,
}

impl LimineResponse for MemoryMapResponse {
    open spec fn spec_revision() -> u64 {
        0
    }

    fn revision_supported() -> (r: u64) {
        0
    }
}

impl MemoryMapResponse {
    /// Returns the memory map entries as a slice.
    pub fn as_slice(&self) -> (r: &[MemoryMapEntry])
        ensures
            r@ == self.entries@,
    {
        self.entries.as_slice()
    }
}

/// One bootloader-reported region of physical memory.
#[derive(Clone, Copy, Debug, PartialEq, Eq, Structural)]
pub struct MemoryMapEntry {
    /// The physical address at which the region starts.
    pub base: u64,
    /// The length of the region in bytes.
    pub length: u64,
    /// The kind of the region.
    pub mem_type: MemoryMapEntryType,
}

/// The kind of a bootloader-reported memory region; only usable regions may
/// be claimed as general-purpose physical memory.
#[derive(Clone, Copy, Debug, PartialEq, Eq, Structural)]
pub struct MemoryMapEntryType(pub u64);

impl MemoryMapEntryType {
    /// Returns the kind of a region safe to claim as general-purpose
    /// memory.
    pub fn usable() -> (r: Self)
        ensures
            r.0 == 0,
    {
        MemoryMapEntryType(0)
    }

    /// Returns the kind of a reserved region.
    pub fn reserved() -> (r: Self)
        ensures
            r.0 == 1,
    {
        MemoryMapEntryType(1)
    }

    /// Returns the kind of a region reclaimable after ACPI initialization.
    pub fn acpi_reclaimable() -> (r: Self)
        ensures
            r.0 == 2,
    {
        MemoryMapEntryType(2)
    }

    /// Returns the kind of an ACPI non-volatile-storage region.
    pub fn acpi_nvs() -> (r: Self)
        ensures
            r.0 == 3,
    {
        MemoryMapEntryType(3)
    }

    /// Returns the kind of a faulty memory region.
    pub fn bad_memory() -> (r: Self)
        ensures
            r.0 == 4,
    {
        MemoryMapEntryType(4)
    }

    /// Returns the kind of a region reclaimable once the bootloader's
    /// structures are no longer needed.
    pub fn bootloader_reclaimable() -> (r: Self)
        ensures
            r.0 == 5,
    {
        MemoryMapEntryType(5)
    }

    /// Returns the kind of the region holding the kernel and its modules.
    pub fn kernel_and_modules() -> (r: Self)
        ensures
            r.0 == 6,
    {
        MemoryMapEntryType(6)
    }

    /// Returns the kind of a framebuffer region.
    pub fn framebuffer() -> (r: Self)
        ensures
            r.0 == 7,
    {
        MemoryMapEntryType(7)
    }
}

/// A request to obtain the virtual and physical address of the kernel.
#[derive(Clone, Copy, Debug, PartialEq, Eq, Structural)]
pub struct KernelAddressRequest;

impl KernelAddressRequest {
    /// Returns a [`KernelAddressRequest`].
    pub fn new() -> (r: Self) {
        KernelAddressRequest
    }
}

impl LimineRequest for KernelAddressRequest {
    type Response = KernelAddressResponse;

    open spec fn spec_id() -> Seq<u64> {
        seq![LIMINE_MAGIC_0, LIMINE_MAGIC_1, 0x71ba76863cc55f63, 0xb2644a48c516a487]
    }

    open spec fn spec_revision() -> u64 {
        0
    }

    fn id() -> (r: [u64; 4]) {
        let r = [LIMINE_MAGIC_0, LIMINE_MAGIC_1, 0x71ba76863cc55f63, 0xb2644a48c516a487];
        proof {
            assert(r@ =~= Self::spec_id());
        }
        r
    }

    fn revision() -> (r: u64) {
        0
    }
}

/// The body of the response to a [`KernelAddressRequest`].
#[derive(Clone, Copy, Debug, PartialEq, Eq, Structural)]
pub struct KernelAddressResponse {
    /// The physical address at which the kernel was loaded.
    pub physical_base: u64,
    /// The virtual address at which the kernel was relocated.
    pub virtual_base: u64,
}

impl LimineResponse for KernelAddressResponse {
    open spec fn spec_revision() -> u64 {
        0
    }

    fn revision_supported() -> (r: u64) {
        0
    }
}

/// A request to obtain the offset of the higher-half direct map.
#[derive(Clone, Copy, Debug, PartialEq, Eq, Structural)]
pub struct DirectMapRequest;

impl DirectMapRequest {
    /// Returns a [`DirectMapRequest`].
    pub fn new() -> (r: Self) {
        DirectMapRequest
    }
}

impl LimineRequest for DirectMapRequest {
    type Response = DirectMapResponse;

    open spec fn spec_id() -> Seq<u64> {
        seq![LIMINE_MAGIC_0, LIMINE_MAGIC_1, 0x48dcf1cb8ad2b852, 0x63984e959a98244b]
    }

    open spec fn spec_revision() -> u64 {
        0
    }

    fn id() -> (r: [u64; 4]) {
        let r = [LIMINE_MAGIC_0, LIMINE_MAGIC_1, 0x48dcf1cb8ad2b852, 0x63984e959a98244b];
        proof {
            assert(r@ =~= Self::spec_id());
        }
        r
    }

    fn revision() -> (r: u64) {
        0
    }
}

/// The body of the response to a [`DirectMapRequest`].
#[derive(Clone, Copy, Debug, PartialEq, Eq, Structural)]
pub struct DirectMapResponse {
    /// The offset at which all of physical memory is mapped in the higher
    /// half.
    pub offset: u64,
}

impl LimineResponse for DirectMapResponse {
    open spec fn spec_revision() -> u64 {
        0
    }

    fn revision_supported() -> (r: u64) {
        0
    }
}

} // verus!
