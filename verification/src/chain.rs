//! Backing chains: how one is discovered image by image, how its devices are
//! numbered, and how it is described to a guest and to the user.
use vstd::prelude::*;
use crate::abi::{CHAIN_CONFIG_MAGIC, CHAIN_CONFIG_VERSION, IMAGE_FORMAT_RAW, MAX_CHAIN_DEVICES};
use crate::bytes::{le_bytes, lemma_le_bytes_len, push_u32, push_u64};
use crate::formats::ImageFormat;
use crate::message::InfoResultMessage;
use crate::size::{format_size_human, human_size};
use crate::text::{
    between, copied, dec, holds_part, lemma_first_part, lemma_last_part, lemma_part_stays, name_of,
    push_dec, same,
};

verus! {

/// A file beside an image that holds data of it.
#[derive(Debug, Clone)]
pub struct ExternalDataFile {
    pub path: String,
    /// How many bytes of the image lie in it.
    pub extent_size: u64,
    /// The size of the file itself.
    pub file_size: u64,
}

/// An image of a backing chain.
#[derive(Debug, Clone)]
pub struct ChainImage {
    pub path: String,
    pub format: ImageFormat,
    /// The code under which guests know the format.
    pub format_code: u32,
    /// The name under which the user knows the format.
    pub format_label: String,
    pub virtual_size: u64,
    pub actual_size: u64,
    pub cluster_size: u32,
    /// The backing file as the image names it.
    pub backing_file_raw: Option<String>,
    pub flags: u32,
    pub external_data_files: Vec<ExternalDataFile>,
}

/// What a guest reported of one image.
#[derive(Debug, Clone)]
pub struct InfoOperationResult {
    pub format: String,
    pub virtual_size: u64,
    pub actual_size: u64,
    pub cluster_size: u32,
    pub flags: u32,
    pub backing_file: Option<String>,
    pub external_data_file: Option<String>,
}

// ---------------------------------------------------------------------------
// Probing one image
// ---------------------------------------------------------------------------

/// A name that is there unless it is empty.
pub open spec fn named(text: Seq<char>) -> Option<Seq<char>> {
    if text.len() == 0 {
        None
    } else {
        Some(text)
    }
}

fn non_empty(text: &str) -> (r: Option<String>)
    ensures
        name_of(r) == named(text@),
{
    if text.is_empty() {
        None
    } else {
        Some(text.to_owned())
    }
}

/// Keeps what a guest reported of an image. Empty names are none.
pub fn capture_info(m: &InfoResultMessage) -> (r: InfoOperationResult)
    ensures
        r.format@ == m.format@,
        r.virtual_size == m.virtual_size,
        r.actual_size == m.actual_size,
        r.cluster_size == m.cluster_size,
        r.flags == m.flags,
        name_of(r.backing_file) == named(m.backing_file@),
        name_of(r.external_data_file) == named(m.external_data_file@),
{
    InfoOperationResult {
        format: m.format.as_str().to_owned(),
        virtual_size: m.virtual_size,
        actual_size: m.actual_size,
        cluster_size: m.cluster_size,
        flags: m.flags,
        backing_file: non_empty(m.backing_file.as_str()),
        external_data_file: non_empty(m.external_data_file.as_str()),
    }
}

/// What a probe came to: it fails where the guest reported nothing.
pub fn probe_outcome(captured: Option<InfoOperationResult>) -> (r: Result<
    InfoOperationResult,
    String,
>)
    ensures
        match captured {
            Some(c) => r == Ok::<InfoOperationResult, String>(c),
            None => r matches Err(e) && e@ == "No info result received from guest"@,
        },
{
    match captured {
        Some(c) => Ok(c),
        None => Err("No info result received from guest".to_owned()),
    }
}

// ---------------------------------------------------------------------------
// Discovery
// ---------------------------------------------------------------------------

/// Why a walk down a chain stops with an error.
#[derive(Debug)]
pub enum ChainError {
    /// The walk came to this path before.
    CircularReference(String),
    /// The chain has more images than this.
    TooDeep(usize),
}

/// A flat VMDK descriptor whose extent files were resolved.
#[derive(Debug)]
pub struct FlatDescriptor {
    pub virtual_size: u64,
    pub parent_hint: Option<String>,
    pub extents: Vec<ExternalDataFile>,
}

/// A walk down a chain, from the top image to its base.
#[derive(Debug)]
pub struct ChainWalk {
    pub images: Vec<ChainImage>,
    pub seen: Vec<String>,
    pub max_depth: usize,
}

impl ChainWalk {
    /// Whether an image was entered and not added yet.
    pub open spec fn entered(self) -> bool {
        self.seen@.len() == self.images@.len() + 1
    }

    /// The walk never comes to a path twice nor goes deeper than it may, each
    /// image stands at the path at which it was entered, and each but the last
    /// names a backing file.
    pub open spec fn wf(self) -> bool {
        &&& self.seen@.len() == self.images@.len() || self.entered()
        &&& self.seen@.len() <= self.max_depth
        &&& forall|i: int|
            0 <= i < self.images@.len() ==> (#[trigger] self.images@[i]).path@ == self.seen@[i]@
        &&& forall|i: int, j: int|
            0 <= i < j < self.seen@.len() ==> (#[trigger] self.seen@[i])@ != (
            #[trigger] self.seen@[j])@
        &&& forall|i: int|
            0 <= i < self.seen@.len() - 1 ==> (
            #[trigger] self.images@[i]).backing_file_raw is Some
    }

    /// Whether the walk may go on: there is no image yet, or the last one
    /// names a backing file.
    pub open spec fn open_ended(self) -> bool {
        self.images@.len() == 0 || self.images@.last().backing_file_raw is Some
    }

    /// Whether the walk came to a path before.
    pub open spec fn came_to(self, path: Seq<char>) -> bool {
        exists|i: int| 0 <= i < self.seen@.len() && (#[trigger] self.seen@[i])@ == path
    }

    /// A walk that starts.
    pub fn new(max_depth: usize) -> (r: Self)
        ensures
            r.wf(),
            !r.entered(),
            r.open_ended(),
            r.images@.len() == 0,
            r.seen@.len() == 0,
            r.max_depth == max_depth,
    {
        ChainWalk { images: Vec::new(), seen: Vec::new(), max_depth }
    }

    fn was_seen(&self, path: &str) -> (r: bool)
        ensures
            r == self.came_to(path@),
    {
        let mut i: usize = 0;
        while i < self.seen.len()
            invariant
                i <= self.seen@.len(),
                forall|k: int| 0 <= k < i ==> (#[trigger] self.seen@[k])@ != path@,
            decreases self.seen.len() - i,
        {
            if same(self.seen[i].as_str(), path) {
                assert(self.seen@[i as int]@ == path@);
                return true;
            }
            i = i + 1;
        }
        false
    }

    /// Enters the image at a path.
    pub fn enter(&mut self, path: &str) -> (r: Result<(), ChainError>)
        requires
            old(self).wf(),
            !old(self).entered(),
            old(self).open_ended(),
        ensures
            final(self).wf(),
            final(self).images == old(self).images,
            final(self).max_depth == old(self).max_depth,
            match r {
                Err(ChainError::CircularReference(p)) => old(self).came_to(path@) && p@ == path@,
                Err(ChainError::TooDeep(n)) => !old(self).came_to(path@) && old(
                    self,
                ).images@.len() >= n && n == old(self).max_depth,
                Ok(()) => !old(self).came_to(path@) && old(self).images@.len() < old(
                    self,
                ).max_depth,
            },
            match r {
                Ok(()) => final(self).entered() && final(self).seen@.len() == old(self).seen@.len()
                    + 1 && final(self).seen@.drop_last() == old(self).seen@
                    && final(self).seen@.last()@ == path@,
                Err(_) => final(self).seen@ == old(self).seen@,
            },
    {
        if self.was_seen(path) {
            return Err(ChainError::CircularReference(path.to_owned()));
        }
        if self.images.len() >= self.max_depth {
            return Err(ChainError::TooDeep(self.max_depth));
        }
        let ghost before = self.seen@;
        self.seen.push(path.to_owned());
        assert(self.seen@.drop_last() =~= before);
        assert forall|i: int, j: int| 0 <= i < j < self.seen@.len() implies (
        #[trigger] self.seen@[i])@ != (#[trigger] self.seen@[j])@ by {
            assert(self.seen@[i] == before[i]);
        }
        Ok(())
    }

    /// Adds the entered image, a flat VMDK descriptor, and gives the parent
    /// to go to, where it names one.
    pub fn add_descriptor(
        &mut self,
        descriptor: FlatDescriptor,
        format_code: u32,
        format_label: &str,
        file_size: u64,
    ) -> (r: Option<String>)
        requires
            old(self).wf(),
            old(self).entered(),
        ensures
            final(self).wf(),
            !final(self).entered(),
            final(self).seen == old(self).seen,
            final(self).max_depth == old(self).max_depth,
            final(self).images@.len() == old(self).images@.len() + 1,
            final(self).images@.drop_last() == old(self).images@,
            ({
                let image = final(self).images@.last();
                &&& image.path@ == old(self).seen@.last()@
                &&& image.format == ImageFormat::VmdkDescriptor
                &&& image.format_code == format_code
                &&& image.format_label@ == format_label@
                &&& image.virtual_size == descriptor.virtual_size
                &&& image.actual_size == file_size
                &&& image.cluster_size == 0
                &&& name_of(image.backing_file_raw) == name_of(descriptor.parent_hint)
                &&& image.flags == 0
                &&& image.external_data_files == descriptor.extents
            }),
            name_of(r) == name_of(descriptor.parent_hint),
            final(self).open_ended() == (r is Some),
    {
        let n: usize = self.seen.len();
        let path = self.seen[n - 1].as_str().to_owned();
        let ghost before = self.images@;
        let hint = copied(&descriptor.parent_hint);
        self.images.push(
            ChainImage {
                path,
                format: ImageFormat::VmdkDescriptor,
                format_code,
                format_label: format_label.to_owned(),
                virtual_size: descriptor.virtual_size,
                actual_size: file_size,
                cluster_size: 0,
                backing_file_raw: descriptor.parent_hint,
                flags: 0,
                external_data_files: descriptor.extents,
            },
        );
        assert(self.images@.drop_last() =~= before);
        hint
    }

    /// The external data file to resolve for an image that was probed: only
    /// the top image may have one.
    pub fn wants_data_file(&self, info: &InfoOperationResult) -> (r: Option<String>)
        ensures
            name_of(r) == if self.images@.len() == 0 {
                name_of(info.external_data_file)
            } else {
                None
            },
    {
        if self.images.len() == 0 {
            copied(&info.external_data_file)
        } else {
            None
        }
    }

    /// Adds the entered image as a guest reported it, with the data file that
    /// was resolved for it, and gives the backing file to go to.
    pub fn add_image(
        &mut self,
        info: InfoOperationResult,
        format: ImageFormat,
        format_code: u32,
        format_label: &str,
        file_size: u64,
        data_file: Option<ExternalDataFile>,
    ) -> (r: Option<String>)
        requires
            old(self).wf(),
            old(self).entered(),
        ensures
            final(self).wf(),
            !final(self).entered(),
            final(self).seen == old(self).seen,
            final(self).max_depth == old(self).max_depth,
            final(self).images@.len() == old(self).images@.len() + 1,
            final(self).images@.drop_last() == old(self).images@,
            ({
                let image = final(self).images@.last();
                &&& image.path@ == old(self).seen@.last()@
                &&& image.format == format
                &&& image.format_code == format_code
                &&& image.format_label@ == format_label@
                &&& image.virtual_size == info.virtual_size
                &&& image.actual_size == if info.actual_size > 0 {
                    info.actual_size
                } else {
                    file_size
                }
                &&& image.cluster_size == info.cluster_size
                &&& name_of(image.backing_file_raw) == name_of(info.backing_file)
                &&& image.flags == info.flags
                &&& image.external_data_files@ == match data_file {
                    Some(f) => seq![f],
                    None => Seq::empty(),
                }
            }),
            name_of(r) == name_of(info.backing_file),
            final(self).open_ended() == (r is Some),
    {
        let n: usize = self.seen.len();
        let path = self.seen[n - 1].as_str().to_owned();
        let ghost before = self.images@;
        let backing = copied(&info.backing_file);
        let mut files: Vec<ExternalDataFile> = Vec::new();
        match data_file {
            Some(f) => {
                files.push(f);
                assert(files@ =~= seq![f]);
            },
            None => {},
        }
        self.images.push(
            ChainImage {
                path,
                format,
                format_code,
                format_label: format_label.to_owned(),
                virtual_size: info.virtual_size,
                actual_size: if info.actual_size > 0 {
                    info.actual_size
                } else {
                    file_size
                },
                cluster_size: info.cluster_size,
                backing_file_raw: info.backing_file,
                flags: info.flags,
                external_data_files: files,
            },
        );
        assert(self.images@.drop_last() =~= before);
        backing
    }
}

/// Says that a chain could not be discovered, and of which image where there
/// are several.
pub fn discovery_failure(image: Option<&str>, cause: &str) -> (r: String)
    ensures
        r@ == match image {
            Some(name) => "error discovering backing chain for "@ + name@ + ": "@ + cause@,
            None => "error discovering backing chain: "@ + cause@,
        },
{
    let mut s = match image {
        Some(name) => between("error discovering backing chain for ", name, ": "),
        None => "error discovering backing chain: ".to_owned(),
    };
    s.append(cause);
    s
}

// ---------------------------------------------------------------------------
// Devices
// ---------------------------------------------------------------------------

/// How a guest sees one device of a chain.
#[derive(Debug, Clone, Copy, PartialEq, Eq, Structural)]
pub struct DeviceEntry {
    pub format: u32,
    pub flags: u32,
    pub virtual_size: u64,
    pub actual_size: u64,
    pub cluster_size: u32,
    /// The device that holds the image's data, or 0 where it holds its own.
    pub data_device: u32,
}

/// The entry of an image that is the device `at`.
pub open spec fn image_entry(image: ChainImage, at: int) -> DeviceEntry {
    DeviceEntry {
        format: image.format_code,
        flags: image.flags,
        virtual_size: image.virtual_size,
        actual_size: image.actual_size,
        cluster_size: image.cluster_size,
        data_device: if image.external_data_files@.len() > 0 {
            (at + 1) as u32
        } else {
            0
        },
    }
}

/// The entry of an external data file.
pub open spec fn data_entry(file: ExternalDataFile) -> DeviceEntry {
    DeviceEntry {
        format: IMAGE_FORMAT_RAW,
        flags: 0,
        virtual_size: file.extent_size,
        actual_size: file.file_size,
        cluster_size: 0,
        data_device: 0,
    }
}

/// The entries of an image and of its data files, which follow it.
pub open spec fn image_devices(image: ChainImage, at: int) -> Seq<DeviceEntry> {
    seq![image_entry(image, at)] + image.external_data_files@.map_values(
        |f: ExternalDataFile| data_entry(f),
    )
}

/// The entries of all devices of a chain whose first device is `start`.
pub open spec fn chain_devices(images: Seq<ChainImage>, start: int) -> Seq<DeviceEntry>
    decreases images.len(),
{
    if images.len() == 0 {
        Seq::empty()
    } else {
        let before = chain_devices(images.drop_last(), start);
        before + image_devices(images.last(), start + before.len())
    }
}

/// As much of some entries as fits behind the first `start` devices.
pub open spec fn fitting(entries: Seq<DeviceEntry>, start: int) -> Seq<DeviceEntry> {
    if start >= MAX_CHAIN_DEVICES {
        Seq::empty()
    } else if start + entries.len() <= MAX_CHAIN_DEVICES {
        entries
    } else {
        entries.take(MAX_CHAIN_DEVICES - start)
    }
}

/// How many devices the images of a chain and their data files make.
pub open spec fn device_total(images: Seq<ChainImage>) -> int
    decreases images.len(),
{
    if images.len() == 0 {
        0
    } else {
        device_total(images.drop_last()) + 1 + images.last().external_data_files@.len()
    }
}

/// A chain has as many devices as its images and their data files.
pub proof fn law_device_total(images: Seq<ChainImage>, start: int)
    ensures
        chain_devices(images, start).len() == device_total(images),
        device_total(images) >= images.len(),
    decreases images.len(),
{
    if images.len() > 0 {
        law_device_total(images.drop_last(), start);
    }
}

/// The devices of the first images come first.
proof fn lemma_devices_prefix(images: Seq<ChainImage>, start: int, n: int)
    requires
        0 <= n <= images.len(),
    ensures
        chain_devices(images.take(n), start).len() <= chain_devices(images, start).len(),
        chain_devices(images, start).take(chain_devices(images.take(n), start).len() as int)
            == chain_devices(images.take(n), start),
    decreases images.len(),
{
    if n == images.len() {
        assert(images.take(n) =~= images);
        assert(chain_devices(images, start).take(chain_devices(images, start).len() as int)
            =~= chain_devices(images, start));
    } else {
        let shorter = images.drop_last();
        lemma_devices_prefix(shorter, start, n);
        assert(shorter.take(n) =~= images.take(n));
        let k = chain_devices(images.take(n), start).len() as int;
        assert(chain_devices(images, start).take(k) =~= chain_devices(shorter, start).take(k));
    }
}

/// What is cut off is cut off wherever the entries before it already fill the
/// description.
proof fn lemma_fitting_prefix(whole: Seq<DeviceEntry>, part: Seq<DeviceEntry>, start: int)
    requires
        part.len() <= whole.len(),
        whole.take(part.len() as int) == part,
        start + part.len() >= MAX_CHAIN_DEVICES,
    ensures
        fitting(whole, start) == fitting(part, start),
{
    if start < MAX_CHAIN_DEVICES {
        let n = MAX_CHAIN_DEVICES - start;
        assert(whole.take(n) =~= part.take(n)) by {
            assert(part.take(n) =~= whole.take(part.len() as int).take(n));
        }
        assert(part.take(part.len() as int) =~= part);
    }
}

/// Lists the entries of a chain's devices, as many as fit.
pub fn list_devices(images: &Vec<ChainImage>, start: usize) -> (r: Vec<DeviceEntry>)
    ensures
        r@ == fitting(chain_devices(images@, start as int), start as int),
{
    let mut r: Vec<DeviceEntry> = Vec::new();
    if start >= MAX_CHAIN_DEVICES {
        return r;
    }
    let mut i: usize = 0;
    let ghost whole = chain_devices(images@, start as int);
    let ghost mut done: Seq<DeviceEntry> = Seq::empty();
    proof {
        assert(images@.take(0) =~= Seq::<ChainImage>::empty());
        assert(whole.take(0) =~= Seq::<DeviceEntry>::empty());
    }
    while i < images.len() && start + r.len() < MAX_CHAIN_DEVICES
        invariant
            i <= images@.len(),
            start <= MAX_CHAIN_DEVICES,
            start + r@.len() <= MAX_CHAIN_DEVICES,
            whole == chain_devices(images@, start as int),
            done == chain_devices(images@.take(i as int), start as int),
            done.len() <= whole.len(),
            whole.take(done.len() as int) == done,
            r@ == fitting(done, start as int),
        decreases images.len() - i,
    {
        let ghost before = done;
        proof {
            assert(images@.take(i + 1).drop_last() =~= images@.take(i as int));
            assert(images@.take(i + 1).last() == images@[i as int]);
            lemma_devices_prefix(images@, start as int, i + 1);
            done = chain_devices(images@.take(i + 1), start as int);
            assert(before.take(before.len() as int) =~= before);
        }
        let image = &images[i];
        let ghost part = image_devices(*image, start + before.len());
        let at: usize = start + r.len();
        r.push(
            DeviceEntry {
                format: image.format_code,
                flags: image.flags,
                virtual_size: image.virtual_size,
                actual_size: image.actual_size,
                cluster_size: image.cluster_size,
                data_device: if image.external_data_files.len() > 0 {
                    (at + 1) as u32
                } else {
                    0
                },
            },
        );
        assert(r@ =~= before + part.take(1));
        let mut j: usize = 0;
        while j < image.external_data_files.len() && start + r.len() < MAX_CHAIN_DEVICES
            invariant
                *image == images@[i as int],
                j <= image.external_data_files@.len(),
                start + r@.len() <= MAX_CHAIN_DEVICES,
                part == image_devices(*image, start + before.len()),
                r@ == before + part.take(1 + j),
            decreases image.external_data_files.len() - j,
        {
            let file = &image.external_data_files[j];
            r.push(
                DeviceEntry {
                    format: IMAGE_FORMAT_RAW,
                    flags: 0,
                    virtual_size: file.extent_size,
                    actual_size: file.file_size,
                    cluster_size: 0,
                    data_device: 0,
                },
            );
            j = j + 1;
            assert(r@ =~= before + part.take(1 + j));
        }
        proof {
            assert(done == before + part);
            if j == image.external_data_files@.len() {
                assert(part.take(1 + j) =~= part);
                assert(r@ == done);
            } else {
                assert(r@ =~= done.take(r@.len() as int));
            }
        }
        i = i + 1;
    }
    proof {
        if i == images@.len() {
            assert(images@.take(i as int) =~= images@);
        } else {
            if start + done.len() < MAX_CHAIN_DEVICES {
                assert(r@.len() == done.len());
            }
            lemma_fitting_prefix(whole, done, start as int);
        }
    }
    r
}

/// Counts the devices of a chain.
pub fn total_devices(images: &Vec<ChainImage>) -> (r: usize)
    requires
        device_total(images@) <= usize::MAX,
    ensures
        r == device_total(images@),
{
    let mut n: usize = 0;
    let mut i: usize = 0;
    assert(images@.take(0) =~= Seq::<ChainImage>::empty());
    while i < images.len()
        invariant
            i <= images@.len(),
            device_total(images@) <= usize::MAX,
            n == device_total(images@.take(i as int)),
        decreases images.len() - i,
    {
        proof {
            assert(images@.take(i + 1).drop_last() =~= images@.take(i as int));
            assert(images@.take(i + 1).last() == images@[i as int]);
            lemma_devices_prefix(images@, 0, i + 1);
            law_device_total(images@, 0);
            law_device_total(images@.take(i + 1), 0);
        }
        n = n + 1 + images[i].external_data_files.len();
        i = i + 1;
    }
    assert(images@.take(i as int) =~= images@);
    n
}

/// The devices of two chains in a row are those of both.
pub proof fn lemma_devices_of_part(a: Seq<ChainImage>, b: Seq<ChainImage>)
    ensures
        device_total(a + b) == device_total(a) + device_total(b),
    decreases b.len(),
{
    if b.len() == 0 {
        assert(a + b =~= a);
    } else {
        lemma_devices_of_part(a, b.drop_last());
        assert((a + b).drop_last() =~= a + b.drop_last());
    }
}

/// The bytes of an entry.
pub open spec fn entry_bytes(e: DeviceEntry) -> Seq<u8> {
    le_bytes(e.format as int, 4) + le_bytes(e.flags as int, 4) + le_bytes(e.virtual_size as int, 8)
        + le_bytes(e.actual_size as int, 8) + le_bytes(e.cluster_size as int, 4) + le_bytes(
        e.data_device as int,
        4,
    )
}

/// The bytes of a list of entries.
pub open spec fn entries_bytes(entries: Seq<DeviceEntry>) -> Seq<u8>
    decreases entries.len(),
{
    if entries.len() == 0 {
        Seq::empty()
    } else {
        entries_bytes(entries.drop_last()) + entry_bytes(entries.last())
    }
}

/// Each entry takes 32 bytes.
proof fn lemma_entries_len(entries: Seq<DeviceEntry>)
    ensures
        entries_bytes(entries).len() == 32 * entries.len(),
    decreases entries.len(),
{
    broadcast use lemma_le_bytes_len;

    if entries.len() > 0 {
        lemma_entries_len(entries.drop_last());
    }
}

/// The entry of a device stands where its number says.
pub proof fn law_entry_at_its_place(entries: Seq<DeviceEntry>, i: int)
    requires
        0 <= i < entries.len(),
    ensures
        entries_bytes(entries).len() == 32 * entries.len(),
        entries_bytes(entries).subrange(32 * i, 32 * i + 32) == entry_bytes(entries[i]),
    decreases entries.len(),
{
    broadcast use lemma_le_bytes_len;

    let shorter = entries.drop_last();
    lemma_entries_len(entries);
    lemma_entries_len(shorter);
    if i < entries.len() - 1 {
        law_entry_at_its_place(shorter, i);
        assert(entries_bytes(entries).subrange(32 * i, 32 * i + 32) =~= entries_bytes(
            shorter,
        ).subrange(32 * i, 32 * i + 32));
    } else {
        assert(entries_bytes(entries).subrange(32 * i, 32 * i + 32) =~= entry_bytes(entries[i]));
    }
}

/// Describes the devices of a chain to a guest: the bytes of the entries from
/// the device `start` on. Devices beyond the last that a guest knows are left
/// out.
pub fn write_chain_device_entries(images: &Vec<ChainImage>, start: usize) -> (r: Vec<u8>)
    ensures
        r@ == entries_bytes(fitting(chain_devices(images@, start as int), start as int)),
{
    let entries = list_devices(images, start);
    let mut r: Vec<u8> = Vec::new();
    let mut i: usize = 0;
    assert(entries@.take(0) =~= Seq::<DeviceEntry>::empty());
    while i < entries.len()
        invariant
            i <= entries@.len(),
            r@ == entries_bytes(entries@.take(i as int)),
        decreases entries.len() - i,
    {
        let ghost before = r@;
        let e = entries[i];
        push_u32(&mut r, e.format);
        push_u32(&mut r, e.flags);
        push_u64(&mut r, e.virtual_size);
        push_u64(&mut r, e.actual_size);
        push_u32(&mut r, e.cluster_size);
        push_u32(&mut r, e.data_device);
        proof {
            assert(entries@.take(i + 1).drop_last() =~= entries@.take(i as int));
            assert(r@ =~= before + entry_bytes(e));
        }
        i = i + 1;
    }
    assert(entries@.take(i as int) =~= entries@);
    r
}

/// How many devices of a chain a guest is told of.
pub open spec fn told_devices(total: int) -> int {
    if total <= MAX_CHAIN_DEVICES {
        total
    } else {
        MAX_CHAIN_DEVICES as int
    }
}

/// The head of a chain description: its magic, the number of devices, its
/// version, and a reserved word.
pub open spec fn chain_head(count: int) -> Seq<u8> {
    le_bytes(CHAIN_CONFIG_MAGIC as int, 4) + le_bytes(count, 4) + le_bytes(
        CHAIN_CONFIG_VERSION as int,
        4,
    ) + le_bytes(0, 4)
}

/// The description of a chain to a guest: a head, then the entries.
pub open spec fn chain_config(images: Seq<ChainImage>) -> Seq<u8> {
    chain_head(told_devices(device_total(images))) + entries_bytes(
        fitting(chain_devices(images, 0), 0),
    )
}

/// The head of a chain description.
pub(crate) fn write_chain_head(count: usize) -> (r: Vec<u8>)
    requires
        count <= MAX_CHAIN_DEVICES,
    ensures
        r@ == chain_head(count as int),
{
    let mut r: Vec<u8> = Vec::new();
    push_u32(&mut r, CHAIN_CONFIG_MAGIC);
    push_u32(&mut r, count as u32);
    push_u32(&mut r, CHAIN_CONFIG_VERSION);
    push_u32(&mut r, 0);
    assert(r@ =~= chain_head(count as int));
    r
}

/// Describes a chain to a guest.
pub fn write_chain_config(images: &Vec<ChainImage>) -> (r: Vec<u8>)
    requires
        device_total(images@) <= usize::MAX,
    ensures
        r@ == chain_config(images@),
{
    let total: usize = total_devices(images);
    let count: usize = if total <= MAX_CHAIN_DEVICES {
        total
    } else {
        MAX_CHAIN_DEVICES
    };
    let mut r = write_chain_head(count);
    let mut entries = write_chain_device_entries(images, 0);
    r.append(&mut entries);
    r
}

/// A description has as many entries as its head says.
pub proof fn law_description_is_complete(images: Seq<ChainImage>)
    ensures
        chain_config(images).len() == 16 + 32 * told_devices(device_total(images)),
        chain_config(images).subrange(4, 8) == le_bytes(told_devices(device_total(images)), 4),
{
    broadcast use lemma_le_bytes_len;

    law_device_total(images, 0);
    lemma_entries_len(fitting(chain_devices(images, 0), 0));
    assert(chain_config(images).subrange(4, 8) =~= le_bytes(
        told_devices(device_total(images)),
        4,
    ));
}

/// A device to open for a chain.
#[derive(Debug)]
pub struct ChainDevice {
    pub path: String,
    pub read_only: bool,
}

/// The files of a chain's devices, in the order of the devices: each image,
/// then its data files.
pub open spec fn device_paths(images: Seq<ChainImage>) -> Seq<Seq<char>>
    decreases images.len(),
{
    if images.len() == 0 {
        Seq::empty()
    } else {
        device_paths(images.drop_last()) + seq![images.last().path@]
            + images.last().external_data_files@.map_values(|f: ExternalDataFile| f.path@)
    }
}

/// Device for device, the files that are opened and the entries that describe
/// them are as many: the guest finds at each number the device that the
/// description speaks of.
pub proof fn law_devices_match_entries(images: Seq<ChainImage>, start: int)
    ensures
        device_paths(images).len() == chain_devices(images, start).len(),
        forall|i: int|
            0 <= i < images.len() ==> {
                let at = device_total(#[trigger] images.take(i));
                &&& device_paths(images)[at] == images[i].path@
                &&& chain_devices(images, start)[at] == image_entry(images[i], start + at)
            },
    decreases images.len(),
{
    law_device_total(images, start);
    if images.len() > 0 {
        let shorter = images.drop_last();
        law_devices_match_entries(shorter, start);
        law_device_total(shorter, start);
        assert forall|i: int| 0 <= i < images.len() implies {
            let at = device_total(#[trigger] images.take(i));
            &&& device_paths(images)[at] == images[i].path@
            &&& chain_devices(images, start)[at] == image_entry(images[i], start + at)
        } by {
            assert(shorter.take(i) =~= images.take(i));
            law_device_total(images.take(i), start);
            if i < shorter.len() {
                lemma_devices_prefix(shorter, start, i + 1);
                law_device_total(shorter.take(i + 1), start);
                assert(shorter.take(i + 1).drop_last() =~= shorter.take(i));
                assert(shorter.take(i + 1).last() == shorter[i]);
            } else {
                assert(images.take(i) =~= shorter);
            }
        }
    }
}

/// Tests whether a device number is listed.
fn is_listed(slots: &[usize], slot: usize) -> (r: bool)
    ensures
        r == slots@.contains(slot),
{
    let mut i: usize = 0;
    while i < slots.len()
        invariant
            i <= slots@.len(),
            forall|k: int| 0 <= k < i ==> slots@[k] != slot,
        decreases slots.len() - i,
    {
        if slots[i] == slot {
            assert(slots@[i as int] == slot);
            return true;
        }
        i = i + 1;
    }
    false
}

/// Lists the devices to open for a chain. Those at the numbers in `rw_slots`
/// are opened for writing.
pub fn open_chain_devices(images: &Vec<ChainImage>, rw_slots: &[usize]) -> (r: Vec<ChainDevice>)
    requires
        device_total(images@) <= usize::MAX,
    ensures
        r@.map_values(|d: ChainDevice| d.path@) == device_paths(images@),
        forall|i: int|
            0 <= i < r@.len() ==> (#[trigger] r@[i]).read_only == !rw_slots@.contains(i as usize),
{
    let mut r: Vec<ChainDevice> = Vec::new();
    let mut i: usize = 0;
    let ghost view = |d: ChainDevice| d.path@;
    proof {
        assert(images@.take(0) =~= Seq::<ChainImage>::empty());
        assert(r@.map_values(view) =~= Seq::<Seq<char>>::empty());
    }
    while i < images.len()
        invariant
            i <= images@.len(),
            device_total(images@) <= usize::MAX,
            view == (|d: ChainDevice| d.path@),
            r@.map_values(view) == device_paths(images@.take(i as int)),
            forall|k: int|
                0 <= k < r@.len() ==> (#[trigger] r@[k]).read_only == !rw_slots@.contains(
                    k as usize,
                ),
        decreases images.len() - i,
    {
        let ghost before = r@.map_values(view);
        let image = &images[i];
        let ghost files = image.external_data_files@.map_values(|f: ExternalDataFile| f.path@);
        proof {
            assert(images@.take(i + 1).drop_last() =~= images@.take(i as int));
            assert(images@.take(i + 1).last() == images@[i as int]);
        }
        let slot: usize = r.len();
        r.push(
            ChainDevice {
                path: image.path.as_str().to_owned(),
                read_only: !is_listed(rw_slots, slot),
            },
        );
        assert(r@.map_values(view) =~= before + seq![image.path@] + files.take(0));
        let mut j: usize = 0;
        while j < image.external_data_files.len()
            invariant
                *image == images@[i as int],
                j <= image.external_data_files@.len(),
                view == (|d: ChainDevice| d.path@),
                files == image.external_data_files@.map_values(|f: ExternalDataFile| f.path@),
                r@.map_values(view) == before + seq![image.path@] + files.take(j as int),
                forall|k: int|
                    0 <= k < r@.len() ==> (#[trigger] r@[k]).read_only == !rw_slots@.contains(
                        k as usize,
                    ),
            decreases image.external_data_files.len() - j,
        {
            let ghost now = r@.map_values(view);
            let slot: usize = r.len();
            r.push(
                ChainDevice {
                    path: image.external_data_files[j].path.as_str().to_owned(),
                    read_only: !is_listed(rw_slots, slot),
                },
            );
            j = j + 1;
            assert(r@.map_values(view) =~= now + seq![files[j - 1]]);
            assert(now + seq![files[j - 1]] =~= before + seq![image.path@] + files.take(j as int));
        }
        assert(files.take(j as int) =~= files);
        i = i + 1;
    }
    assert(images@.take(i as int) =~= images@);
    r
}

/// A chain of one image without a backing file.
pub fn create_single_image_chain(
    path: &str,
    format: ImageFormat,
    format_code: u32,
    format_label: &str,
    virtual_size: u64,
    actual_size: u64,
    cluster_size: u32,
    flags: u32,
) -> (r: Vec<ChainImage>)
    ensures
        r@.len() == 1,
        ({
            let image = r@[0];
            &&& image.path@ == path@
            &&& image.format == format
            &&& image.format_code == format_code
            &&& image.format_label@ == format_label@
            &&& image.virtual_size == virtual_size
            &&& image.actual_size == actual_size
            &&& image.cluster_size == cluster_size
            &&& image.backing_file_raw is None
            &&& image.flags == flags
            &&& image.external_data_files@.len() == 0
        }),
{
    let mut r: Vec<ChainImage> = Vec::new();
    r.push(
        ChainImage {
            path: path.to_owned(),
            format,
            format_code,
            format_label: format_label.to_owned(),
            virtual_size,
            actual_size,
            cluster_size,
            backing_file_raw: None,
            flags,
            external_data_files: Vec::new(),
        },
    );
    r
}

// ---------------------------------------------------------------------------
// Report
// ---------------------------------------------------------------------------

/// The lines for the data files of an image.
pub open spec fn data_file_lines(files: Seq<ExternalDataFile>) -> Seq<char>
    decreases files.len(),
{
    if files.len() == 0 {
        Seq::empty()
    } else {
        data_file_lines(files.drop_last()) + "  External data file: "@ + files.last().path@ + "\n"@
    }
}

/// The lines for the data files of a chain.
pub open spec fn all_data_file_lines(images: Seq<ChainImage>) -> Seq<char>
    decreases images.len(),
{
    if images.len() == 0 {
        Seq::empty()
    } else {
        all_data_file_lines(images.drop_last()) + data_file_lines(
            images.last().external_data_files@,
        )
    }
}

/// Where an image leads.
pub open spec fn backing_arrow(backing: Option<String>) -> Seq<char> {
    match backing {
        Some(b) => " -> "@ + b@,
        None => ""@,
    }
}

/// A size for people, then in bytes.
pub open spec fn size_line(label: Seq<char>, size: u64) -> Seq<char> {
    label + human_size(size, false) + " ("@ + dec(size as int) + " bytes)\n"@
}

/// The line for a cluster size that is known.
pub open spec fn cluster_line(size: u32) -> Seq<char> {
    if size > 0 {
        "      cluster size: "@ + dec(size as int) + " bytes\n"@
    } else {
        ""@
    }
}

/// The lines for an image.
pub open spec fn image_lines(i: int, image: ChainImage) -> Seq<char> {
    "  ["@ + dec(i) + "] "@ + image.path@ + " ("@ + image.format_label@ + ")"@ + backing_arrow(
        image.backing_file_raw,
    ) + "\n"@ + size_line("      virtual size: "@, image.virtual_size) + size_line(
        "      disk size: "@,
        image.actual_size,
    ) + cluster_line(image.cluster_size)
}

/// The lines for the images of a chain.
pub open spec fn all_image_lines(images: Seq<ChainImage>) -> Seq<char>
    decreases images.len(),
{
    if images.len() == 0 {
        Seq::empty()
    } else {
        all_image_lines(images.drop_last()) + image_lines(images.len() - 1, images.last())
    }
}

/// The report of a chain.
pub open spec fn chain_text(images: Seq<ChainImage>) -> Seq<char> {
    "Chain: "@ + dec(images.len() as int) + " image(s)\n"@ + all_data_file_lines(images)
        + all_image_lines(images)
}

fn push_size_line(s: &mut String, label: &str, size: u64)
    ensures
        final(s)@ == old(s)@ + size_line(label@, size),
{
    let ghost before = s@;
    s.append(label);
    s.append(format_size_human(size, false).as_str());
    s.append(" (");
    push_dec(s, size);
    s.append(" bytes)\n");
    assert(s@ =~= before + size_line(label@, size));
}

fn push_data_file_lines(s: &mut String, files: &Vec<ExternalDataFile>)
    ensures
        final(s)@ == old(s)@ + data_file_lines(files@),
{
    let ghost before = s@;
    let mut i: usize = 0;
    proof {
        assert(files@.take(0) =~= Seq::<ExternalDataFile>::empty());
        assert(s@ =~= before + data_file_lines(files@.take(0)));
    }
    while i < files.len()
        invariant
            i <= files@.len(),
            s@ == before + data_file_lines(files@.take(i as int)),
        decreases files.len() - i,
    {
        let ghost now = data_file_lines(files@.take(i as int));
        s.append("  External data file: ");
        s.append(files[i].path.as_str());
        s.append("\n");
        proof {
            assert(files@.take(i + 1).drop_last() =~= files@.take(i as int));
            assert(s@ =~= before + (now + "  External data file: "@ + files@[i as int].path@
                + "\n"@));
        }
        i = i + 1;
    }
    assert(files@.take(i as int) =~= files@);
}

fn format_image_lines(i: usize, image: &ChainImage) -> (r: String)
    ensures
        r@ == image_lines(i as int, *image),
{
    let mut s = "  [".to_owned();
    push_dec(&mut s, i as u64);
    s.append("] ");
    s.append(image.path.as_str());
    s.append(" (");
    s.append(image.format_label.as_str());
    s.append(")");
    let mut arrow = "".to_owned();
    match &image.backing_file_raw {
        Some(b) => {
            arrow = " -> ".to_owned();
            arrow.append(b.as_str());
        },
        None => {},
    }
    s.append(arrow.as_str());
    s.append("\n");
    push_size_line(&mut s, "      virtual size: ", image.virtual_size);
    push_size_line(&mut s, "      disk size: ", image.actual_size);
    let mut cluster = "".to_owned();
    if image.cluster_size > 0 {
        cluster = "      cluster size: ".to_owned();
        push_dec(&mut cluster, image.cluster_size as u64);
        cluster.append(" bytes\n");
    }
    s.append(cluster.as_str());
    s
}

/// Reports a chain.
pub fn print_backing_chain(images: &Vec<ChainImage>) -> (r: String)
    ensures
        r@ == chain_text(images@),
{
    let mut s = "Chain: ".to_owned();
    push_dec(&mut s, images.len() as u64);
    s.append(" image(s)\n");
    let ghost head = s@;
    let mut i: usize = 0;
    proof {
        assert(images@.take(0) =~= Seq::<ChainImage>::empty());
        assert(s@ =~= head + all_data_file_lines(images@.take(0)));
    }
    while i < images.len()
        invariant
            i <= images@.len(),
            s@ == head + all_data_file_lines(images@.take(i as int)),
        decreases images.len() - i,
    {
        let ghost now = all_data_file_lines(images@.take(i as int));
        push_data_file_lines(&mut s, &images[i].external_data_files);
        proof {
            assert(images@.take(i + 1).drop_last() =~= images@.take(i as int));
            assert(s@ =~= head + (now + data_file_lines(
                images@[i as int].external_data_files@,
            )));
        }
        i = i + 1;
    }
    assert(images@.take(i as int) =~= images@);
    let ghost middle = s@;
    let mut i: usize = 0;
    assert(s@ =~= middle + all_image_lines(images@.take(0)));
    while i < images.len()
        invariant
            i <= images@.len(),
            s@ == middle + all_image_lines(images@.take(i as int)),
        decreases images.len() - i,
    {
        let ghost now = all_image_lines(images@.take(i as int));
        s.append(format_image_lines(i, &images[i]).as_str());
        proof {
            assert(images@.take(i + 1).drop_last() =~= images@.take(i as int));
            assert(s@ =~= middle + (now + image_lines(i as int, images@[i as int])));
        }
        i = i + 1;
    }
    assert(images@.take(i as int) =~= images@);
    s
}

/// The devices of an image stand behind those of the images before it: itself,
/// then its data files.
proof fn lemma_devices_of_image(images: Seq<ChainImage>, start: int, i: int)
    requires
        0 <= i < images.len(),
    ensures
        ({
            let at = device_total(images.take(i));
            let files = images[i].external_data_files@;
            &&& 0 <= at
            &&& at + files.len() < chain_devices(images, start).len()
            &&& device_paths(images).len() == chain_devices(images, start).len()
            &&& chain_devices(images, start)[at] == image_entry(images[i], start + at)
            &&& device_paths(images)[at] == images[i].path@
            &&& forall|j: int|
                #![trigger files[j]]
                0 <= j < files.len() ==> chain_devices(images, start)[at + 1 + j] == data_entry(
                    files[j],
                ) && device_paths(images)[at + 1 + j] == files[j].path@
        }),
    decreases images.len(),
{
    let shorter = images.drop_last();
    let before = chain_devices(shorter, start);
    law_device_total(images, start);
    law_device_total(shorter, start);
    law_devices_match_entries(images, start);
    law_devices_match_entries(shorter, start);
    if i == images.len() - 1 {
        assert(images.take(i) =~= shorter);
        let files = images[i].external_data_files@;
        let own = image_devices(images[i], start + before.len());
        assert forall|j: int| #![trigger files[j]] 0 <= j < files.len() implies chain_devices(
            images,
            start,
        )[before.len() + 1 + j] == data_entry(files[j]) && device_paths(images)[before.len() + 1
            + j] == files[j].path@ by {
            assert(own[1 + j] == data_entry(files[j]));
        }
    } else {
        lemma_devices_of_image(shorter, start, i);
        assert(shorter.take(i) =~= images.take(i));
        let at = device_total(images.take(i));
        let files = images[i].external_data_files@;
        assert(shorter[i] == images[i]);
        assert forall|j: int| #![trigger files[j]] 0 <= j < files.len() implies chain_devices(
            images,
            start,
        )[at + 1 + j] == data_entry(files[j]) && device_paths(images)[at + 1 + j]
            == files[j].path@ by {
            assert(chain_devices(images, start)[at + 1 + j] == before[at + 1 + j]);
        }
    }
}

/// A guest is told of each image what is known of it, and of each data file
/// that it is raw and how large it and its part of the image are. An image
/// whose data lies elsewhere points to the device behind it, its first data
/// file, and every other to none. The devices of an image follow those of the
/// images before it.
pub proof fn law_entries_tell_of_their_images(
    images: &Vec<ChainImage>,
    start: usize,
    r: Vec<DeviceEntry>,
    i: int,
)
    requires
        call_ensures(list_devices, (images, start), r),
        0 <= i < images@.len(),
        start + device_total(images@) <= 16,
    ensures
        ({
            let at = device_total(images@.take(i));
            let image = images@[i];
            let files = image.external_data_files@;
            &&& 0 <= at && at + files.len() < r@.len()
            &&& r@[at].format == image.format_code
            &&& r@[at].flags == image.flags
            &&& r@[at].virtual_size == image.virtual_size
            &&& r@[at].actual_size == image.actual_size
            &&& r@[at].cluster_size == image.cluster_size
            &&& files.len() > 0 ==> r@[at].data_device == start + at + 1
            &&& files.len() == 0 ==> r@[at].data_device == 0
            &&& forall|j: int|
                #![trigger files[j]]
                0 <= j < files.len() ==> r@[at + 1 + j] == (DeviceEntry {
                    format: 1,
                    flags: 0,
                    virtual_size: files[j].extent_size,
                    actual_size: files[j].file_size,
                    cluster_size: 0,
                    data_device: 0,
                })
        }),
{
    law_device_total(images@, start as int);
    lemma_devices_of_image(images@, start as int, i);
    assert(r@ == chain_devices(images@, start as int));
    let at = device_total(images@.take(i));
    let files = images@[i].external_data_files@;
    assert forall|j: int| #![trigger files[j]] 0 <= j < files.len() implies r@[at + 1 + j]
        == data_entry(files[j]) by {
    }
}

/// The files that are opened are those that the entries speak of, in the same
/// order: each image, then its data files. Only the listed ones are opened for
/// writing.
pub proof fn law_opened_files_match_the_entries(
    images: &Vec<ChainImage>,
    rw_slots: &[usize],
    r: Vec<ChainDevice>,
    i: int,
)
    requires
        call_ensures(open_chain_devices, (images, rw_slots), r),
        0 <= i < images@.len(),
        device_total(images@) <= usize::MAX,
    ensures
        ({
            let at = device_total(images@.take(i));
            let files = images@[i].external_data_files@;
            &&& r@.len() == device_total(images@)
            &&& 0 <= at && at + files.len() < r@.len()
            &&& r@[at].path@ == images@[i].path@
            &&& forall|j: int|
                #![trigger files[j]]
                0 <= j < files.len() ==> r@[at + 1 + j].path@ == files[j].path@
        }),
        forall|k: int|
            0 <= k < r@.len() ==> ((#[trigger] r@[k]).read_only <==> !rw_slots@.contains(
                k as usize,
            )),
{
    law_device_total(images@, 0);
    lemma_devices_of_image(images@, 0, i);
    let at = device_total(images@.take(i));
    let files = images@[i].external_data_files@;
    let paths = r@.map_values(|d: ChainDevice| d.path@);
    assert(paths.len() == r@.len());
    assert(paths[at] == r@[at].path@);
    assert forall|j: int| #![trigger files[j]] 0 <= j < files.len() implies r@[at + 1 + j].path@
        == files[j].path@ by {
        assert(paths[at + 1 + j] == r@[at + 1 + j].path@);
    }
}

/// The description that a guest reads begins with its name, the number of its
/// entries and its version, and holds what is known of each image in the
/// entry of the image's device.
pub proof fn law_description_holds_the_images(images: &Vec<ChainImage>, r: Vec<u8>, i: int)
    requires
        call_ensures(write_chain_config, (images,), r),
        0 <= i < images@.len(),
        device_total(images@) <= 16,
    ensures
        ({
            let at = 16 + 32 * device_total(images@.take(i));
            let image = images@[i];
            &&& r@.subrange(0, 4) == le_bytes(0x4348414E, 4)
            &&& r@.subrange(4, 8) == le_bytes(device_total(images@), 4)
            &&& r@.subrange(8, 12) == le_bytes(2, 4)
            &&& r@.len() == 16 + 32 * device_total(images@)
            &&& r@.subrange(at, at + 4) == le_bytes(image.format_code as int, 4)
            &&& r@.subrange(at + 4, at + 8) == le_bytes(image.flags as int, 4)
            &&& r@.subrange(at + 8, at + 16) == le_bytes(image.virtual_size as int, 8)
            &&& r@.subrange(at + 16, at + 24) == le_bytes(image.actual_size as int, 8)
            &&& r@.subrange(at + 24, at + 28) == le_bytes(image.cluster_size as int, 4)
        }),
{
    broadcast use lemma_le_bytes_len;

    law_description_is_complete(images@);
    law_device_total(images@, 0);
    lemma_devices_of_image(images@, 0, i);
    let n = device_total(images@.take(i));
    let entries = chain_devices(images@, 0);
    let image = images@[i];
    law_entry_at_its_place(entries, n);
    let head = chain_head(device_total(images@));
    let body = entries_bytes(entries);
    let e = entry_bytes(entries[n]);
    assert(r@ =~= head + body);
    assert(r@.subrange(0, 4) =~= le_bytes(0x4348414E, 4));
    assert(r@.subrange(8, 12) =~= le_bytes(2, 4));
    let at = 16 + 32 * n;
    assert(r@.subrange(at, at + 32) =~= body.subrange(32 * n, 32 * n + 32));
    assert(r@.subrange(at, at + 32) == e);
    assert(e.subrange(0, 4) =~= le_bytes(image.format_code as int, 4));
    assert(e.subrange(4, 8) =~= le_bytes(image.flags as int, 4));
    assert(e.subrange(8, 16) =~= le_bytes(image.virtual_size as int, 8));
    assert(e.subrange(16, 24) =~= le_bytes(image.actual_size as int, 8));
    assert(e.subrange(24, 28) =~= le_bytes(image.cluster_size as int, 4));
    assert(r@.subrange(at, at + 4) =~= e.subrange(0, 4));
    assert(r@.subrange(at + 4, at + 8) =~= e.subrange(4, 8));
    assert(r@.subrange(at + 8, at + 16) =~= e.subrange(8, 16));
    assert(r@.subrange(at + 16, at + 24) =~= e.subrange(16, 24));
    assert(r@.subrange(at + 24, at + 28) =~= e.subrange(24, 28));
}

/// What a guest reported of an image is kept; a name that is empty is none. A
/// probe succeeds exactly where the guest reported something.
pub proof fn law_probe_keeps_the_report(
    m: &InfoResultMessage,
    r: InfoOperationResult,
    s: Result<InfoOperationResult, String>,
    none: Result<InfoOperationResult, String>,
)
    requires
        call_ensures(capture_info, (m,), r),
        call_ensures(probe_outcome, (Some(r),), s),
        call_ensures(probe_outcome, (None,), none),
    ensures
        s is Ok && s->Ok_0 == r,
        none is Err,
        r.format@ == m.format@,
        r.virtual_size == m.virtual_size,
        r.actual_size == m.actual_size,
        r.cluster_size == m.cluster_size,
        r.flags == m.flags,
        r.backing_file is None <==> m.backing_file@.len() == 0,
        r.backing_file matches Some(b) ==> b@ == m.backing_file@,
        r.external_data_file is None <==> m.external_data_file@.len() == 0,
        r.external_data_file matches Some(f) ==> f@ == m.external_data_file@,
{
}

/// A walk goes to a path exactly where it was not there before and is not too
/// deep, and remembers it; it says which of the two stops it.
pub proof fn law_walk_goes_nowhere_twice(
    walk: &mut ChainWalk,
    path: &str,
    r: Result<(), ChainError>,
)
    requires
        call_ensures(ChainWalk::enter, (walk, path), r),
    ensures
        final(walk).images@ == old(walk).images@,
        r is Ok <==> old(walk).images@.len() < old(walk).max_depth && (forall|i: int|
            0 <= i < old(walk).seen@.len() ==> (#[trigger] old(walk).seen@[i])@ != path@),
        r is Ok ==> final(walk).seen@.len() == old(walk).seen@.len() + 1
            && final(walk).seen@.last()@ == path@,
        r matches Err(ChainError::CircularReference(p)) ==> p@ == path@ && (exists|i: int|
            0 <= i < old(walk).seen@.len() && (#[trigger] old(walk).seen@[i])@ == path@),
        r matches Err(ChainError::TooDeep(n)) ==> n == old(walk).max_depth
            && old(walk).images@.len() >= n,
{
}

/// An image joins the chain as its guest reported it, at the path at which it
/// was entered; a size that the guest does not know is that of the file. The
/// walk goes on to the backing file that the image names.
pub proof fn law_image_joins_as_reported(
    walk: &mut ChainWalk,
    info: InfoOperationResult,
    format: ImageFormat,
    format_code: u32,
    format_label: &str,
    file_size: u64,
    data_file: Option<ExternalDataFile>,
    r: Option<String>,
)
    requires
        call_ensures(
            ChainWalk::add_image,
            (walk, info, format, format_code, format_label, file_size, data_file),
            r,
        ),
    ensures
        ({
            let image = final(walk).images@.last();
            &&& final(walk).images@.len() == old(walk).images@.len() + 1
            &&& final(walk).images@.drop_last() == old(walk).images@
            &&& image.path@ == old(walk).seen@.last()@
            &&& image.format == format
            &&& image.format_code == format_code
            &&& image.format_label@ == format_label@
            &&& image.virtual_size == info.virtual_size
            &&& info.actual_size > 0 ==> image.actual_size == info.actual_size
            &&& info.actual_size == 0 ==> image.actual_size == file_size
            &&& image.cluster_size == info.cluster_size
            &&& image.flags == info.flags
            &&& name_of(image.backing_file_raw) == name_of(info.backing_file)
            &&& data_file is None ==> image.external_data_files@.len() == 0
            &&& data_file is Some ==> image.external_data_files@.len() == 1
                && image.external_data_files@[0] == data_file->0
        }),
        name_of(r) == name_of(info.backing_file),
{
}

/// A flat descriptor joins the chain with the size that it states and with its
/// extents as data files, and the walk goes on to the parent that it names.
pub proof fn law_descriptor_joins_as_stated(
    walk: &mut ChainWalk,
    descriptor: FlatDescriptor,
    format_code: u32,
    format_label: &str,
    file_size: u64,
    r: Option<String>,
)
    requires
        call_ensures(
            ChainWalk::add_descriptor,
            (walk, descriptor, format_code, format_label, file_size),
            r,
        ),
    ensures
        ({
            let image = final(walk).images@.last();
            &&& final(walk).images@.len() == old(walk).images@.len() + 1
            &&& final(walk).images@.drop_last() == old(walk).images@
            &&& image.path@ == old(walk).seen@.last()@
            &&& image.format == ImageFormat::VmdkDescriptor
            &&& image.format_code == format_code
            &&& image.format_label@ == format_label@
            &&& image.virtual_size == descriptor.virtual_size
            &&& image.actual_size == file_size
            &&& image.cluster_size == 0 && image.flags == 0
            &&& image.external_data_files@ == descriptor.extents@
            &&& name_of(image.backing_file_raw) == name_of(descriptor.parent_hint)
        }),
        name_of(r) == name_of(descriptor.parent_hint),
{
}

/// Only the top image of a chain may have its data in another file.
pub proof fn law_only_the_top_image_has_a_data_file(
    walk: &ChainWalk,
    info: &InfoOperationResult,
    r: Option<String>,
)
    requires
        call_ensures(ChainWalk::wants_data_file, (walk, info), r),
    ensures
        r is Some ==> walk.images@.len() == 0,
        walk.images@.len() == 0 ==> name_of(r) == name_of(info.external_data_file),
{
}

/// A chain of one image holds that image as it was given, and nothing behind
/// it.
pub proof fn law_single_image_is_its_own_chain(
    path: &str,
    format: ImageFormat,
    format_code: u32,
    format_label: &str,
    virtual_size: u64,
    actual_size: u64,
    cluster_size: u32,
    flags: u32,
    r: Vec<ChainImage>,
)
    requires
        call_ensures(
            create_single_image_chain,
            (
                path,
                format,
                format_code,
                format_label,
                virtual_size,
                actual_size,
                cluster_size,
                flags,
            ),
            r,
        ),
    ensures
        r@.len() == 1,
        r@[0].path@ == path@,
        r@[0].format == format,
        r@[0].format_code == format_code,
        r@[0].format_label@ == format_label@,
        r@[0].virtual_size == virtual_size,
        r@[0].actual_size == actual_size,
        r@[0].cluster_size == cluster_size,
        r@[0].flags == flags,
        r@[0].backing_file_raw is None,
        device_total(r@) == 1,
{
    reveal_with_fuel(device_total, 2);
}

/// A report of a chain says how many images there are, and of each its number,
/// its path, its format, where it leads, and its two sizes.
pub proof fn law_chain_report_holds_the_images(images: &Vec<ChainImage>, r: String, i: int)
    requires
        call_ensures(print_backing_chain, (images,), r),
        0 <= i < images@.len(),
    ensures
        holds_part(r@, "Chain: "@ + dec(images@.len() as int)),
        holds_part(r@, image_lines(i, images@[i])),
{
    broadcast use {lemma_part_stays, lemma_last_part, lemma_first_part};

    lemma_lines_of_image(images@, i);
    let (before, after) = choose|before: Seq<char>, after: Seq<char>|
        all_image_lines(images@) == #[trigger] ((before + image_lines(i, images@[i])) + after);
    let head = "Chain: "@ + dec(images@.len() as int) + " image(s)\n"@ + all_data_file_lines(
        images@,
    );
    assert(r@ =~= ((head + before) + image_lines(i, images@[i])) + after);
}

proof fn lemma_lines_of_image(images: Seq<ChainImage>, i: int)
    requires
        0 <= i < images.len(),
    ensures
        holds_part(all_image_lines(images), image_lines(i, images[i])),
    decreases images.len(),
{
    let shorter = images.drop_last();
    if i == images.len() - 1 {
        let part = image_lines(i, images[i]);
        assert(all_image_lines(images) =~= (all_image_lines(shorter) + part)
            + Seq::<char>::empty());
    } else {
        lemma_lines_of_image(shorter, i);
        assert(shorter[i] == images[i]);
        lemma_part_stays(
            all_image_lines(shorter),
            image_lines(images.len() - 1, images.last()),
            image_lines(i, images[i]),
        );
    }
}

/// The lines of an image hold what is known of it, each behind its label.
pub proof fn law_image_lines_hold_the_image(i: int, image: ChainImage)
    ensures
        ({
            let lines = image_lines(i, image);
            let virtual_line = "      virtual size: "@ + human_size(image.virtual_size, false)
                + " ("@ + dec(image.virtual_size as int) + " bytes)\n"@;
            let disk_line = "      disk size: "@ + human_size(image.actual_size, false) + " ("@
                + dec(image.actual_size as int) + " bytes)\n"@;
            &&& holds_part(lines, "  ["@ + dec(i))
            &&& holds_part(lines, "] "@ + image.path@)
            &&& holds_part(lines, " ("@ + image.format_label@)
            &&& image.backing_file_raw matches Some(b) ==> holds_part(lines, ")"@ + (" -> "@ + b@))
            &&& holds_part(lines, "\n"@ + virtual_line)
            &&& holds_part(lines, virtual_line + disk_line)
            &&& image.cluster_size > 0 ==> holds_part(
                lines,
                disk_line + ("      cluster size: "@ + dec(image.cluster_size as int)
                    + " bytes\n"@),
            )
        }),
{
    broadcast use {lemma_part_stays, lemma_last_part, lemma_first_part};

}

/// A walk starts with nothing behind it, at the depth that it may go to.
pub proof fn law_walk_starts_with_nothing(max_depth: usize, r: ChainWalk)
    requires
        call_ensures(ChainWalk::new, (max_depth,), r),
    ensures
        r.images@.len() == 0,
        r.seen@.len() == 0,
        r.max_depth == max_depth,
{
}

/// A chain that could not be discovered is told with its cause, and with the
/// image where there are several.
pub proof fn law_failed_discovery_is_told_why(
    name: &str,
    cause: &str,
    named: String,
    plain: String,
)
    requires
        call_ensures(discovery_failure, (Some(name), cause), named),
        call_ensures(discovery_failure, (None, cause), plain),
    ensures
        named@ == "error discovering backing chain for "@ + name@ + ": "@ + cause@,
        plain@ == "error discovering backing chain: "@ + cause@,
{
}

} // verus!
