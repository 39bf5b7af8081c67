use vstd::prelude::*;

use crate::error::IconError;
use crate::geometry::{
    geometry_from_record, pixel_buffer_len, record_is_valid, BitmapGeometry, BitmapRecord,
    DibRequest,
};
use crate::raster::{decode_pixels, decodes, RasterImage};
use crate::validation::{accepts_path, validate_path};

verus! {

/// The index of the icon that an extraction resolves: the first one.
pub const ICON_INDEX: u32 = 0;

/// The name of the file the raster is encoded to, inside the output directory.
pub fn output_file_name() -> (r: &'static str)
    ensures
        r@ == "icon.png"@,
{
    "icon.png"
}

/// What an operating-system handle owned by an extraction refers to.
#[derive(Debug, Clone, Copy, PartialEq, Eq, Structural)]
pub enum ResourceKind {
    Icon,
    ColorBitmap,
    MaskBitmap,
}

/// An operating-system handle owned by an extraction.
#[derive(Debug, Clone, Copy, PartialEq, Eq, Structural)]
pub struct Resource {
    pub kind: ResourceKind,
    pub id: u64,
}

/// The color-plane and mask-plane bitmaps of an icon; 0 stands for none.
#[derive(Debug, Clone, Copy, PartialEq, Eq, Structural)]
pub struct IconPlanes {
    pub color: u64,
    pub mask: u64,
}

/// Where an extraction stands.
#[derive(Debug, Clone, Copy, PartialEq, Eq, Structural)]
pub enum Phase {
    Resolving,
    ReadingPlanes,
    Inspecting,
    Rendering,
    Encoding,
    Releasing,
    Finished,
}

/// What the host reports after performing the pending action.
pub enum Event {
    /// The icon extraction call returned `count` and the handle `icon` (0 for none).
    IconExtracted { count: u32, icon: u64 },
    /// The icon information query returned the bitmap planes, or failed.
    PlanesRead { planes: Option<IconPlanes> },
    /// The bitmap object query returned a record, or failed.
    BitmapQueried { record: Option<BitmapRecord> },
    /// The pixel copy reported `scanlines` rows copied into `pixels`.
    PixelsCopied { scanlines: i32, pixels: Vec<u8> },
    /// Encoding and writing the raster succeeded or not.
    Encoded { ok: bool },
    /// The resource named by the pending release action was released.
    Released,
}

/// What the host is asked to do next.
#[derive(Debug, Clone, Copy)]
pub enum Action {
    /// Extract the icon at `index` from the executable.
    ExtractIcon { index: u32 },
    /// Read the color and mask bitmaps of `icon`.
    ReadPlanes { icon: u64 },
    /// Query the object record of `bitmap`.
    QueryBitmap { bitmap: u64 },
    /// Copy the pixels of `bitmap` into a buffer of `buffer_len` bytes with
    /// the layout `request`, through a device context held for this copy only.
    CopyPixels { bitmap: u64, request: DibRequest, buffer_len: usize },
    /// Encode the raster and write it to the output file.
    Encode,
    /// Release the resource.
    Release { resource: Resource },
    /// The extraction is over, with this outcome.
    Finish { outcome: Result<(), IconError> },
}

pub open spec fn resource_if(kind: ResourceKind, id: u64) -> Seq<Resource> {
    if id != 0 {
        seq![Resource { kind, id }]
    } else {
        Seq::empty()
    }
}

/// Whether the host's report fits the phase the extraction is in.
pub open spec fn event_fits(phase: Phase, ev: Event) -> bool {
    match ev {
        Event::IconExtracted { .. } => phase == Phase::Resolving,
        Event::PlanesRead { .. } => phase == Phase::ReadingPlanes,
        Event::BitmapQueried { .. } => phase == Phase::Inspecting,
        Event::PixelsCopied { .. } => phase == Phase::Rendering,
        Event::Encoded { .. } => phase == Phase::Encoding,
        Event::Released => phase == Phase::Releasing,
    }
}

/// One extraction of the first icon of an executable, from validation to the
/// release of every handle it acquired.
pub struct Extraction {
    phase: Phase,
    held: Vec<Resource>,
    icon: u64,
    color: u64,
    geometry: Option<BitmapGeometry>,
    buffer_len: usize,
    raster: Option<RasterImage>,
    outcome: Result<(), IconError>,
    acquired: Ghost<Seq<Resource>>,
    released: Ghost<Seq<Resource>>,
}

impl Extraction {
    pub closed spec fn spec_phase(&self) -> Phase {
        self.phase
    }

    /// The resources acquired and not yet released, in order of acquisition.
    pub closed spec fn held(&self) -> Seq<Resource> {
        self.held@
    }

    /// Every resource acquired so far, in order of acquisition.
    pub closed spec fn acquired(&self) -> Seq<Resource> {
        self.acquired@
    }

    /// Every resource released so far, in order of release.
    pub closed spec fn released(&self) -> Seq<Resource> {
        self.released@
    }

    pub closed spec fn spec_outcome(&self) -> Result<(), IconError> {
        self.outcome
    }

    pub closed spec fn spec_icon(&self) -> u64 {
        self.icon
    }

    pub closed spec fn spec_color(&self) -> u64 {
        self.color
    }

    pub closed spec fn spec_geometry(&self) -> Option<BitmapGeometry> {
        self.geometry
    }

    pub closed spec fn spec_buffer_len(&self) -> usize {
        self.buffer_len
    }

    pub closed spec fn spec_raster(&self) -> Option<RasterImage> {
        self.raster
    }

    /// The ledger is consistent: nothing is acquired or released twice, and
    /// each acquired resource is either still held or released, not both.
    pub closed spec fn wf(&self) -> bool {
        &&& self.ledger_ok()
        &&& self.phase_ok()
    }

    closed spec fn ledger_ok(&self) -> bool {
        &&& self.held@.no_duplicates()
        &&& self.released@.no_duplicates()
        &&& self.acquired@.no_duplicates()
        &&& forall|r: Resource|
            self.acquired@.contains(r) <==> (self.held@.contains(r) || self.released@.contains(r))
        &&& forall|r: Resource| !(self.held@.contains(r) && #[trigger] self.released@.contains(r))
    }

    closed spec fn phase_ok(&self) -> bool {
        &&& self.phase != Phase::Releasing && self.phase != Phase::Finished ==> {
            &&& self.released@.len() == 0
            &&& self.acquired@ == self.held@
            &&& self.outcome is Ok
        }
        &&& self.phase == Phase::Resolving ==> self.held@.len() == 0
        &&& self.phase == Phase::ReadingPlanes ==> self.held@ == seq![
            Resource { kind: ResourceKind::Icon, id: self.icon },
        ]
        &&& (self.phase == Phase::Inspecting || self.phase == Phase::Rendering || self.phase
            == Phase::Encoding) ==> {
            &&& self.color != 0
            &&& self.held@.len() >= 1
            &&& forall|i: int, j: int|
                0 <= i < j < self.held@.len() ==> self.held@[i].kind != self.held@[j].kind
        }
        &&& self.phase == Phase::Rendering ==> {
            &&& self.geometry matches Some(g)
            &&& g.wf()
            &&& self.buffer_len as int == g.pixel_len()
        }
        &&& self.phase == Phase::Encoding ==> self.raster is Some
        &&& self.phase == Phase::Releasing ==> self.held@.len() > 0
        &&& self.phase == Phase::Finished ==> self.held@.len() == 0
    }

    /// After a failure or once encoding is done, the extraction releases what
    /// it holds, and is finished when nothing is left.
    pub open spec fn closing(&self) -> bool {
        if self.held().len() == 0 {
            self.spec_phase() == Phase::Finished
        } else {
            self.spec_phase() == Phase::Releasing
        }
    }

    /// The extraction failed with `e` and now releases what it holds.
    pub open spec fn failed_with(&self, e: IconError) -> bool {
        self.spec_outcome() == Err::<(), IconError>(e) && self.closing()
    }

    pub open spec fn is_finished(&self) -> bool {
        self.spec_phase() == Phase::Finished
    }

    /// The action the host is asked to perform in the current state.
    pub open spec fn action_spec(&self) -> Action {
        match self.spec_phase() {
            Phase::Resolving => Action::ExtractIcon { index: ICON_INDEX },
            Phase::ReadingPlanes => Action::ReadPlanes { icon: self.spec_icon() },
            Phase::Inspecting => Action::QueryBitmap { bitmap: self.spec_color() },
            Phase::Rendering => Action::CopyPixels {
                bitmap: self.spec_color(),
                request: DibRequest::top_down_of(self.spec_geometry()->0),
                buffer_len: self.spec_buffer_len(),
            },
            Phase::Encoding => Action::Encode,
            Phase::Releasing => Action::Release { resource: self.held().last() },
            Phase::Finished => Action::Finish { outcome: self.spec_outcome() },
        }
    }

    /// Validates the executable path and opens an extraction. An invalid path
    /// fails with `InvalidInput` before anything is acquired.
    pub fn start(exists: bool, extension: Option<&str>) -> (r: Result<Extraction, IconError>)
        ensures
            r is Ok <==> accepts_path(exists, extension),
            r is Err ==> r matches Err(IconError::InvalidInput),
            r matches Ok(x) ==> {
                &&& x.wf()
                &&& x.spec_phase() == Phase::Resolving
                &&& x.acquired().len() == 0
                &&& x.released().len() == 0
            },
    {
        match validate_path(exists, extension) {
            Ok(()) => Ok(Extraction {
                phase: Phase::Resolving,
                held: Vec::new(),
                icon: 0,
                color: 0,
                geometry: None,
                buffer_len: 0,
                raster: None,
                outcome: Ok(()),
                acquired: Ghost(Seq::empty()),
                released: Ghost(Seq::empty()),
            }),
            Err(e) => Err(e),
        }
    }

    pub fn phase(&self) -> (r: Phase)
        ensures
            r == self.spec_phase(),
    {
        self.phase
    }

    /// The outcome recorded so far: `Ok` unless a step failed.
    pub fn outcome(&self) -> (r: Result<(), IconError>)
        ensures
            r == self.spec_outcome(),
    {
        self.outcome
    }

    /// The geometry of the color bitmap, once it has been inspected.
    pub fn geometry(&self) -> (r: Option<BitmapGeometry>)
        ensures
            r == self.spec_geometry(),
    {
        self.geometry
    }

    /// The decoded raster, once the pixels have been copied and decoded.
    pub fn raster(&self) -> (r: Option<&RasterImage>)
        ensures
            r is Some <==> self.spec_raster() is Some,
            r matches Some(img) ==> *img == self.spec_raster()->0,
    {
        match &self.raster {
            Some(img) => Some(img),
            None => None,
        }
    }

    /// Whether `ev` is a report the extraction can take in its phase.
    pub fn accepts(&self, ev: &Event) -> (r: bool)
        ensures
            r == event_fits(self.spec_phase(), *ev),
    {
        match ev {
            Event::IconExtracted { .. } => matches!(self.phase, Phase::Resolving),
            Event::PlanesRead { .. } => matches!(self.phase, Phase::ReadingPlanes),
            Event::BitmapQueried { .. } => matches!(self.phase, Phase::Inspecting),
            Event::PixelsCopied { .. } => matches!(self.phase, Phase::Rendering),
            Event::Encoded { .. } => matches!(self.phase, Phase::Encoding),
            Event::Released => matches!(self.phase, Phase::Releasing),
        }
    }

    /// The action the host performs next.
    pub fn next_action(&self) -> (r: Action)
        requires
            self.wf(),
        ensures
            r == self.action_spec(),
            r matches Action::Release { resource } ==> self.held().contains(resource),
    {
        match self.phase {
            Phase::Resolving => Action::ExtractIcon { index: ICON_INDEX },
            Phase::ReadingPlanes => Action::ReadPlanes { icon: self.icon },
            Phase::Inspecting => Action::QueryBitmap { bitmap: self.color },
            Phase::Rendering => {
                let g = self.geometry.unwrap();
                Action::CopyPixels {
                    bitmap: self.color,
                    request: DibRequest::top_down(g),
                    buffer_len: self.buffer_len,
                }
            },
            Phase::Encoding => Action::Encode,
            Phase::Releasing => {
                let n = self.held.len();
                Action::Release { resource: self.held[n - 1] }
            },
            Phase::Finished => Action::Finish { outcome: self.outcome },
        }
    }

    /// Records the outcome and moves on to releasing what is held.
    fn close(&mut self, outcome: Result<(), IconError>)
        requires
            old(self).ledger_ok(),
        ensures
            final(self).wf(),
            final(self).spec_outcome() == outcome,
            final(self).closing(),
            final(self).held() == old(self).held(),
            final(self).acquired() == old(self).acquired(),
            final(self).released() == old(self).released(),
            final(self).spec_geometry() == old(self).spec_geometry(),
            final(self).spec_raster() == old(self).spec_raster(),
    {
        self.outcome = outcome;
        if self.held.len() == 0 {
            self.phase = Phase::Finished;
        } else {
            self.phase = Phase::Releasing;
        }
    }

    /// Takes ownership of a resource that the operating system handed out.
    fn acquire(&mut self, res: Resource)
        requires
            old(self).ledger_ok(),
            old(self).released().len() == 0,
            old(self).acquired() == old(self).held(),
            forall|i: int| 0 <= i < old(self).held().len() ==> old(self).held()[i].kind != res.kind,
        ensures
            final(self).ledger_ok(),
            final(self).held() == old(self).held().push(res),
            final(self).acquired() == old(self).acquired().push(res),
            final(self).released().len() == 0,
            final(self).phase == old(self).phase,
            final(self).icon == old(self).icon,
            final(self).color == old(self).color,
            final(self).outcome == old(self).outcome,
    {
        proof {
            assert(!self.held@.contains(res)) by {
                if self.held@.contains(res) {
                    let i = choose|i: int| 0 <= i < self.held@.len() && self.held@[i] == res;
                    assert(self.held@[i].kind == res.kind);
                }
            }
        }
        self.held.push(res);
        self.acquired = Ghost(self.acquired@.push(res));
        proof {
            assert forall|r: Resource|
                self.acquired@.contains(r) <==> (self.held@.contains(r) || self.released@.contains(
                    r,
                )) by {
                if self.held@.contains(r) {
                    let i = choose|i: int| 0 <= i < self.held@.len() && self.held@[i] == r;
                    assert(self.acquired@[i] == r);
                }
                if self.acquired@.contains(r) {
                    let i = choose|i: int| 0 <= i < self.acquired@.len() && self.acquired@[i] == r;
                    assert(self.held@[i] == r);
                }
            }
        }
    }

    /// Advances the extraction by the host's report of the pending action.
    pub fn handle(&mut self, ev: Event)
        requires
            old(self).wf(),
            event_fits(old(self).spec_phase(), ev),
        ensures
            final(self).wf(),
            match ev {
                Event::IconExtracted { count, icon } => {
                    &&& final(self).acquired() == resource_if(ResourceKind::Icon, icon)
                    &&& final(self).held() == resource_if(ResourceKind::Icon, icon)
                    &&& final(self).released().len() == 0
                    &&& count == 0 ==> final(self).failed_with(IconError::OsFailure)
                    &&& count != 0 && icon == 0 ==> final(self).failed_with(IconError::NotFound)
                    &&& count != 0 && icon != 0 ==> {
                        &&& final(self).spec_phase() == Phase::ReadingPlanes
                        &&& final(self).spec_icon() == icon
                    }
                },
                Event::PlanesRead { planes } => match planes {
                    None => {
                        &&& final(self).held() == old(self).held()
                        &&& final(self).acquired() == old(self).acquired()
                        &&& final(self).released() == old(self).released()
                        &&& final(self).failed_with(IconError::OsFailure)
                    },
                    Some(p) => {
                        &&& final(self).acquired() == old(self).acquired() + resource_if(
                            ResourceKind::ColorBitmap,
                            p.color,
                        ) + resource_if(ResourceKind::MaskBitmap, p.mask)
                        &&& final(self).held() == old(self).held() + resource_if(
                            ResourceKind::ColorBitmap,
                            p.color,
                        ) + resource_if(ResourceKind::MaskBitmap, p.mask)
                        &&& final(self).released() == old(self).released()
                        &&& p.color == 0 ==> final(self).failed_with(IconError::OsFailure)
                        &&& p.color != 0 ==> {
                            &&& final(self).spec_phase() == Phase::Inspecting
                            &&& final(self).spec_color() == p.color
                        }
                    },
                },
                Event::BitmapQueried { record } => {
                    &&& final(self).held() == old(self).held()
                    &&& final(self).acquired() == old(self).acquired()
                    &&& final(self).released() == old(self).released()
                    &&& match record {
                        None => final(self).failed_with(IconError::OsFailure),
                        Some(rec) => {
                            &&& !record_is_valid(rec) ==> final(self).failed_with(
                                IconError::OsFailure,
                            )
                            &&& record_is_valid(rec) ==> {
                                &&& final(self).spec_geometry() matches Some(g)
                                &&& g.width == rec.width && g.height == rec.height
                                &&& g.bits_per_pixel == rec.bits_per_pixel
                                &&& g.pixel_len() > usize::MAX ==> final(self).failed_with(
                                    IconError::InvalidBuffer,
                                )
                                &&& g.pixel_len() <= usize::MAX ==> {
                                    &&& final(self).spec_phase() == Phase::Rendering
                                    &&& final(self).spec_buffer_len() as int == g.pixel_len()
                                }
                            }
                        },
                    }
                },
                Event::PixelsCopied { scanlines, pixels } => {
                    let g = old(self).spec_geometry()->0;
                    &&& final(self).held() == old(self).held()
                    &&& final(self).acquired() == old(self).acquired()
                    &&& final(self).released() == old(self).released()
                    &&& scanlines <= 0 ==> final(self).failed_with(IconError::OsFailure)
                    &&& scanlines > 0 && !decodes(g, pixels@.len() as int) 
                        ==> final(self).failed_with(IconError::InvalidBuffer)
                    &&& scanlines > 0 && decodes(g, pixels@.len() as int) ==> {
                        &&& final(self).spec_phase() == Phase::Encoding
                        &&& final(self).spec_raster() matches Some(img)
                        &&& img.wf()
                        &&& img.spec_width() == g.width
                        &&& img.spec_height() == g.height
                        &&& img.samples() == pixels@
                    }
                },
                Event::Encoded { ok } => {
                    &&& final(self).held() == old(self).held()
                    &&& final(self).acquired() == old(self).acquired()
                    &&& final(self).released() == old(self).released()
                    &&& ok ==> final(self).spec_outcome() == Ok::<(), IconError>(())
                        && final(self).closing()
                    &&& !ok ==> final(self).failed_with(IconError::EncodeFailure)
                },
                Event::Released => {
                    &&& final(self).acquired() == old(self).acquired()
                    &&& final(self).released() == old(self).released().push(
                        old(self).held().last(),
                    )
                    &&& final(self).held() == old(self).held().drop_last()
                    &&& final(self).spec_outcome() == old(self).spec_outcome()
                    &&& final(self).closing()
                },
            },
    {
        match ev {
            Event::IconExtracted { count, icon } => {
                if icon != 0 {
                    self.acquire(Resource { kind: ResourceKind::Icon, id: icon });
                    self.icon = icon;
                    assert(self.held@ =~= seq![Resource { kind: ResourceKind::Icon, id: icon }]);
                }
                if icon == 0 {
                    assert(self.held@ =~= resource_if(ResourceKind::Icon, icon));
                }
                if count == 0 {
                    self.close(Err(IconError::OsFailure));
                } else if icon == 0 {
                    self.close(Err(IconError::NotFound));
                } else {
                    self.phase = Phase::ReadingPlanes;
                }
            },
            Event::PlanesRead { planes } => match planes {
                None => self.close(Err(IconError::OsFailure)),
                Some(p) => {
                    if p.color != 0 {
                        self.acquire(Resource { kind: ResourceKind::ColorBitmap, id: p.color });
                    }
                    if p.mask != 0 {
                        self.acquire(Resource { kind: ResourceKind::MaskBitmap, id: p.mask });
                    }
                    proof {
                        assert(self.held@ =~= old(self).held@ + resource_if(
                            ResourceKind::ColorBitmap,
                            p.color,
                        ) + resource_if(ResourceKind::MaskBitmap, p.mask));
                        assert(self.acquired@ =~= old(self).acquired@ + resource_if(
                            ResourceKind::ColorBitmap,
                            p.color,
                        ) + resource_if(ResourceKind::MaskBitmap, p.mask));
                    }
                    proof {
                        let h = self.held@;
                        assert(h[0].kind == ResourceKind::Icon);
                        assert forall|i: int, j: int|
                            0 <= i < j < h.len() implies h[i].kind != h[j].kind by {
                            if p.color != 0 && p.mask != 0 {
                                assert(h[1].kind == ResourceKind::ColorBitmap);
                                assert(h[2].kind == ResourceKind::MaskBitmap);
                            } else if p.color != 0 {
                                assert(h[1].kind == ResourceKind::ColorBitmap);
                            } else if p.mask != 0 {
                                assert(h[1].kind == ResourceKind::MaskBitmap);
                            }
                        }
                    }
                    if p.color == 0 {
                        self.close(Err(IconError::OsFailure));
                    } else {
                        self.color = p.color;
                        self.phase = Phase::Inspecting;
                    }
                },
            },
            Event::BitmapQueried { record } => match record {
                None => self.close(Err(IconError::OsFailure)),
                Some(rec) => match geometry_from_record(rec) {
                    Err(e) => self.close(Err(e)),
                    Ok(g) => {
                        self.geometry = Some(g);
                        match pixel_buffer_len(g) {
                            None => self.close(Err(IconError::InvalidBuffer)),
                            Some(n) => {
                                self.buffer_len = n;
                                self.phase = Phase::Rendering;
                            },
                        }
                    },
                },
            },
            Event::PixelsCopied { scanlines, pixels } => {
                if scanlines <= 0 {
                    self.close(Err(IconError::OsFailure));
                } else {
                    let g = self.geometry.unwrap();
                    match decode_pixels(pixels, g) {
                        Err(e) => self.close(Err(e)),
                        Ok(img) => {
                            self.raster = Some(img);
                            self.phase = Phase::Encoding;
                        },
                    }
                }
            },
            Event::Encoded { ok } => {
                if ok {
                    self.close(Ok(()));
                } else {
                    self.close(Err(IconError::EncodeFailure));
                }
            },
            Event::Released => {
                let res = self.held.pop().unwrap();
                self.released = Ghost(self.released@.push(res));
                proof {
                    assert(self.released@[self.released@.len() - 1] == res);
                    assert(old(self).held@[old(self).held@.len() - 1] == res);
                    assert(old(self).held@.contains(res));
                    assert(!old(self).released@.contains(res));
                    assert forall|i: int, j: int|
                        0 <= i < self.released@.len() && 0 <= j < self.released@.len() && i
                            != j implies self.released@[i] != self.released@[j] by {
                        let n = old(self).released@.len() as int;
                        if i == n {
                            assert(old(self).released@[j] == self.released@[j]);
                        } else if j == n {
                            assert(old(self).released@[i] == self.released@[i]);
                        }
                    }
                    assert(self.held@ =~= old(self).held@.drop_last());
                    assert forall|r: Resource|
                        old(self).held@.contains(r) <==> (self.held@.contains(r) || r == res) by {
                        if old(self).held@.contains(r) && r != res {
                            let i = choose|i: int|
                                0 <= i < old(self).held@.len() && old(self).held@[i] == r;
                            assert(i < self.held@.len());
                            assert(self.held@[i] == r);
                        }
                        if self.held@.contains(r) {
                            let i = choose|i: int| 0 <= i < self.held@.len() && self.held@[i] == r;
                            assert(old(self).held@[i] == r);
                        }
                    }
                    assert(!self.held@.contains(res)) by {
                        if self.held@.contains(res) {
                            let i = choose|i: int|
                                0 <= i < self.held@.len() && self.held@[i] == res;
                            assert(old(self).held@[i] == res);
                            assert(old(self).held@[old(self).held@.len() - 1] == res);
                        }
                    }
                    assert forall|r: Resource|
                        self.released@.contains(r) <==> (old(self).released@.contains(r) || r
                            == res) by {
                        if self.released@.contains(r) && r != res {
                            let i = choose|i: int|
                                0 <= i < self.released@.len() && self.released@[i] == r;
                            assert(old(self).released@[i] == r);
                        }
                        if old(self).released@.contains(r) {
                            let i = choose|i: int|
                                0 <= i < old(self).released@.len() && old(self).released@[i]
                                    == r;
                            assert(self.released@[i] == r);
                        }
                    }
                }
                self.close(self.outcome);
            },
        }
    }
}

/// Once an extraction is finished, whatever path it took, every resource it
/// acquired has been released exactly once, and nothing else was released.
pub proof fn lemma_finished_releases_each_once(x: &Extraction)
    requires
        x.wf(),
        x.is_finished(),
    ensures
        x.held().len() == 0,
        x.released().no_duplicates(),
        forall|r: Resource| x.acquired().contains(r) <==> x.released().contains(r),
        x.released().len() == x.acquired().len(),
{
    assert(x.released().to_set() =~= x.acquired().to_set());
    x.released().unique_seq_to_set();
    x.acquired().unique_seq_to_set();
}

/// A release is asked only for a resource that the extraction holds, and
/// taking its report moves exactly that resource from held to released.
pub proof fn lemma_release_moves_held_resource(x: &Extraction)
    requires
        x.wf(),
        x.spec_phase() == Phase::Releasing,
    ensures
        x.action_spec() matches Action::Release { resource } && x.held().contains(resource)
            && !x.released().contains(resource),
{
    assert(x.held()[x.held().len() - 1] == x.held().last());
}

/// The pixel buffer an extraction asks the host to fill decodes under the
/// inspected geometry into a raster of that width and height.
pub proof fn lemma_requested_buffer_decodes(x: &Extraction)
    requires
        x.wf(),
        x.spec_phase() == Phase::Rendering,
    ensures
        x.action_spec() matches Action::CopyPixels { buffer_len, request, .. } && {
            let g = x.spec_geometry()->0;
            &&& decodes(g, buffer_len as int)
            &&& buffer_len as int == g.width as int * g.height as int * 4
            &&& request.width as int == g.width as int
            &&& request.height as int == -(g.height as int)
        },
{
}

} // verus!
