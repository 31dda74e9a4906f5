//! Repairing image data on the clipboard: which image data is acceptable, what
//! is written back, and when a repair is skipped.
use vstd::prelude::*;
use vstd::string::StringExecFns;

use crate::config::AppConfig;
use crate::platform::elapsed;
use crate::platform::now;
use crate::platform::whole_millis;

verus! {

/// How long after a repair a clipboard change is taken to be that repair's own.
pub const SELF_TRIGGER_WINDOW_MS: u64 = 300;

/// The smallest DIB header (`BITMAPINFOHEADER`).
pub const BITMAP_INFO_HEADER_SIZE: usize = 40;

/// The largest DIB header (`BITMAPV5HEADER`).
pub const BITMAP_V5_HEADER_SIZE: usize = 124;

/// The clipboard format number of `CF_DIB`.
pub const CF_DIB: u32 = 8;

/// The clipboard format number of `CF_DIBV5`.
pub const CF_DIBV5: u32 = 17;

/// What one attempt at repairing the clipboard came to.
#[derive(Debug, Clone, Copy, PartialEq, Eq, Structural)]
pub enum FixOutcome {
    Disabled,
    NoReadableImage,
    SkippedSelfTrigger,
    Fixed { wrote_dib: bool, wrote_png: bool },
}

/// Why repairing the clipboard failed.
#[derive(Debug)]
pub enum ClipboardError {
    UnsupportedPlatform,
    OpenClipboardFailed,
    EmptyClipboardFailed,
    ReadFormatFailed(&'static str),
    WriteFormatFailed(&'static str),
    InvalidImageData(&'static str),
    AllocationFailed,
}

// ---------------------------------------------------------------------------
// Image data
// ---------------------------------------------------------------------------

/// The header size that a DIB states in its first four bytes (little endian).
pub open spec fn dib_header_size(b: Seq<u8>) -> nat {
    b[0] as nat + b[1] as nat * 256 + b[2] as nat * 65536 + b[3] as nat * 16777216
}

/// Why the DIB `b` is refused, or `None` when it is acceptable.
pub open spec fn dib_problem(b: Seq<u8>) -> Option<Seq<char>> {
    if b.len() < 40 {
        Some("DIB header is too short"@)
    } else if dib_header_size(b) < 40 || dib_header_size(b) > b.len() {
        Some("DIB header size is invalid"@)
    } else if dib_header_size(b) > 124 {
        Some("unsupported DIB header size"@)
    } else {
        None
    }
}

/// The eight bytes that every PNG file starts with.
pub open spec fn png_signature() -> Seq<u8> {
    seq![0x89u8, 0x50u8, 0x4Eu8, 0x47u8, 0x0Du8, 0x0Au8, 0x1Au8, 0x0Au8]
}

/// Why the PNG `b` is refused, or `None` when it is acceptable.
pub open spec fn png_problem(b: Seq<u8>) -> Option<Seq<char>> {
    if b.len() >= 8 && b.take(8) == png_signature() {
        None
    } else {
        Some("PNG signature is missing"@)
    }
}

/// Why a pair of DIB and PNG data is refused as an image, or `None`.
pub open spec fn image_problem(dib: Option<Seq<u8>>, png: Option<Seq<u8>>) -> Option<Seq<char>> {
    if dib is None && png is None {
        Some("no image formats present"@)
    } else if dib is Some && dib_problem(dib->0) is Some {
        dib_problem(dib->0)
    } else if png is Some && png_problem(png->0) is Some {
        png_problem(png->0)
    } else {
        None
    }
}

pub open spec fn bytes_of(data: Option<Vec<u8>>) -> Option<Seq<u8>> {
    match data {
        Some(v) => Some(v@),
        None => None,
    }
}

/// The error that refuses image data for `reason`.
pub open spec fn is_invalid_image(e: ClipboardError, reason: Seq<char>) -> bool {
    e matches ClipboardError::InvalidImageData(r) && r@ == reason
}

/// Checks the header of a device-independent bitmap.
pub fn validate_dib(bytes: &[u8]) -> (r: Result<(), ClipboardError>)
    ensures
        match dib_problem(bytes@) {
            None => r is Ok,
            Some(reason) => r matches Err(e) && is_invalid_image(e, reason),
        },
{
    if bytes.len() < BITMAP_INFO_HEADER_SIZE {
        return Err(ClipboardError::InvalidImageData("DIB header is too short"));
    }
    let header_size: u64 = bytes[0] as u64 + bytes[1] as u64 * 256 + bytes[2] as u64 * 65536
        + bytes[3] as u64 * 16777216;
    if header_size < BITMAP_INFO_HEADER_SIZE as u64 || header_size > bytes.len() as u64 {
        return Err(ClipboardError::InvalidImageData("DIB header size is invalid"));
    }
    if header_size > BITMAP_V5_HEADER_SIZE as u64 {
        return Err(ClipboardError::InvalidImageData("unsupported DIB header size"));
    }
    Ok(())
}

/// Checks that PNG data starts with the PNG signature.
pub fn validate_png(bytes: &[u8]) -> (r: Result<(), ClipboardError>)
    ensures
        match png_problem(bytes@) {
            None => r is Ok,
            Some(reason) => r matches Err(e) && is_invalid_image(e, reason),
        },
{
    let signature: [u8; 8] = [0x89, 0x50, 0x4E, 0x47, 0x0D, 0x0A, 0x1A, 0x0A];
    assert(signature@ =~= png_signature());
    if bytes.len() < 8 {
        return Err(ClipboardError::InvalidImageData("PNG signature is missing"));
    }
    let mut i: usize = 0;
    while i < 8
        invariant
            8 <= bytes.len(),
            i <= 8,
            signature@ == png_signature(),
            forall|k: int| 0 <= k < i ==> bytes@[k] == png_signature()[k],
        decreases 8 - i,
    {
        if bytes[i] != signature[i] {
            assert(bytes@.take(8)[i as int] != png_signature()[i as int]);
            return Err(ClipboardError::InvalidImageData("PNG signature is missing"));
        }
        i = i + 1;
    }
    assert(bytes@.take(8) =~= png_signature());
    Ok(())
}

/// Image data read from the clipboard: a DIB, a PNG, or both, each of which
/// has passed its check.
#[derive(Debug)]
pub struct ClipboardImage {
    dib: Option<Vec<u8>>,
    png: Option<Vec<u8>>,
}

impl ClipboardImage {
    #[verifier::type_invariant]
    spec fn is_valid(self) -> bool {
        image_problem(bytes_of(self.dib), bytes_of(self.png)) is None
    }

    /// The DIB data, if there is any.
    pub closed spec fn spec_dib(self) -> Option<Seq<u8>> {
        bytes_of(self.dib)
    }

    /// The PNG data, if there is any.
    pub closed spec fn spec_png(self) -> Option<Seq<u8>> {
        bytes_of(self.png)
    }

    /// Accepts image data when there is some and all of it passes its check;
    /// otherwise refuses it for the first problem found.
    pub fn new(dib: Option<Vec<u8>>, png: Option<Vec<u8>>) -> (r: Result<
        ClipboardImage,
        ClipboardError,
    >)
        ensures
            match image_problem(bytes_of(dib), bytes_of(png)) {
                None => r matches Ok(image) && image.spec_dib() == bytes_of(dib)
                    && image.spec_png() == bytes_of(png),
                Some(reason) => r matches Err(e) && is_invalid_image(e, reason),
            },
    {
        if dib.is_none() && png.is_none() {
            return Err(ClipboardError::InvalidImageData("no image formats present"));
        }
        if let Some(bytes) = &dib {
            validate_dib(bytes.as_slice())?;
        }
        if let Some(bytes) = &png {
            validate_png(bytes.as_slice())?;
        }
        Ok(ClipboardImage { dib, png })
    }

    /// The DIB data, if there is any.
    pub fn dib(&self) -> (r: Option<&Vec<u8>>)
        ensures
            match r {
                Some(v) => self.spec_dib() == Some(v@),
                None => self.spec_dib() is None,
            },
            image_problem(self.spec_dib(), self.spec_png()) is None,
    {
        proof {
            use_type_invariant(self);
        }
        match &self.dib {
            Some(v) => Some(v),
            None => None,
        }
    }

    /// The PNG data, if there is any.
    pub fn png(&self) -> (r: Option<&Vec<u8>>)
        ensures
            match r {
                Some(v) => self.spec_png() == Some(v@),
                None => self.spec_png() is None,
            },
            image_problem(self.spec_dib(), self.spec_png()) is None,
    {
        proof {
            use_type_invariant(self);
        }
        match &self.png {
            Some(v) => Some(v),
            None => None,
        }
    }
}

/// The DIB formats that the clipboard can offer, the richer one first.
#[derive(Debug, Clone, Copy, PartialEq, Eq, Structural)]
pub enum DibFormat {
    DibV5,
    Dib,
}

impl DibFormat {
    /// The clipboard format number.
    pub fn code(self) -> (c: u32)
        ensures
            c == (match self {
                DibFormat::DibV5 => CF_DIBV5,
                DibFormat::Dib => CF_DIB,
            }),
    {
        match self {
            DibFormat::DibV5 => CF_DIBV5,
            DibFormat::Dib => CF_DIB,
        }
    }

    /// The name under which a failure to read the format is reported.
    pub fn name(self) -> (n: &'static str)
        ensures
            n@ == (match self {
                DibFormat::DibV5 => "CF_DIBV5"@,
                DibFormat::Dib => "CF_DIB"@,
            }),
    {
        match self {
            DibFormat::DibV5 => "CF_DIBV5",
            DibFormat::Dib => "CF_DIB",
        }
    }
}

/// Which DIB format to read: `CF_DIBV5` where the clipboard offers it, else
/// `CF_DIB` where it offers that, else none.
pub fn choose_dib_format(v5_available: bool, dib_available: bool) -> (r: Option<DibFormat>)
    ensures
        r == (if v5_available {
            Some(DibFormat::DibV5)
        } else if dib_available {
            Some(DibFormat::Dib)
        } else {
            None::<DibFormat>
        }),
{
    if v5_available {
        Some(DibFormat::DibV5)
    } else if dib_available {
        Some(DibFormat::Dib)
    } else {
        None
    }
}

/// Whether to read PNG data: only when the PNG format could be registered
/// (its number is not 0) and the clipboard offers it.
pub fn should_read_png(png_format: u32, png_available: bool) -> (r: bool)
    ensures
        r == (png_format != 0 && png_available),
{
    png_format != 0 && png_available
}

/// The image that the data read from the clipboard makes: none when nothing
/// was read, else the checked image, or the reason it is refused.
pub fn read_image(dib: Option<Vec<u8>>, png: Option<Vec<u8>>) -> (r: Result<
    Option<ClipboardImage>,
    ClipboardError,
>)
    ensures
        dib is None && png is None ==> (r matches Ok(None)),
        !(dib is None && png is None) ==> match image_problem(bytes_of(dib), bytes_of(png)) {
            None => r matches Ok(Some(image)) && image.spec_dib() == bytes_of(dib)
                && image.spec_png() == bytes_of(png),
            Some(reason) => r matches Err(e) && is_invalid_image(e, reason),
        },
{
    if dib.is_none() && png.is_none() {
        return Ok(None);
    }
    match ClipboardImage::new(dib, png) {
        Ok(image) => Ok(Some(image)),
        Err(e) => Err(e),
    }
}

// ---------------------------------------------------------------------------
// Writing the image back
// ---------------------------------------------------------------------------

/// What to do with the clipboard once an image was (or was not) read from it:
/// whether to empty it, and which formats to write back.
#[derive(Debug, Clone, Copy, PartialEq, Eq, Structural)]
pub struct NormalizePlan {
    pub clear_clipboard: bool,
    pub write_dib: bool,
    pub write_png: bool,
}

/// The plan for an image (or for no image) under the given settings.
pub open spec fn spec_plan(config: AppConfig, dib: Option<Seq<u8>>, png: Option<Seq<u8>>, read: bool) -> NormalizePlan {
    NormalizePlan {
        clear_clipboard: read,
        write_dib: read && config.write_dib && dib is Some,
        write_png: read && config.write_png && png is Some,
    }
}

/// What a repair comes to once the plan was carried out without error.
pub open spec fn spec_plan_outcome(plan: NormalizePlan) -> FixOutcome {
    if plan.write_dib || plan.write_png {
        FixOutcome::Fixed { wrote_dib: plan.write_dib, wrote_png: plan.write_png }
    } else {
        FixOutcome::NoReadableImage
    }
}

/// Decides how to rewrite the clipboard: when an image was read, the clipboard
/// is emptied and each format that the image has and the settings ask for is
/// written back; when none was read, the clipboard is left alone.
pub fn normalize_clipboard_image(config: &AppConfig, image: &Option<ClipboardImage>) -> (p:
    NormalizePlan)
    ensures
        p == (match image {
            Some(i) => spec_plan(*config, i.spec_dib(), i.spec_png(), true),
            None => spec_plan(*config, None, None, false),
        }),
        p.clear_clipboard <==> image is Some,
        p.write_dib <==> (image matches Some(i) && config.write_dib && i.spec_dib() is Some),
        p.write_png <==> (image matches Some(i) && config.write_png && i.spec_png() is Some),
{
    match image {
        Some(i) => NormalizePlan {
            clear_clipboard: true,
            write_dib: config.write_dib && i.dib().is_some(),
            write_png: config.write_png && i.png().is_some(),
        },
        None => NormalizePlan { clear_clipboard: false, write_dib: false, write_png: false },
    }
}

impl NormalizePlan {
    /// What the repair comes to once this plan was carried out without error:
    /// `Fixed` with the formats written, or `NoReadableImage` when none was.
    pub fn outcome(&self) -> (o: FixOutcome)
        ensures
            o == spec_plan_outcome(*self),
    {
        if self.write_dib || self.write_png {
            FixOutcome::Fixed { wrote_dib: self.write_dib, wrote_png: self.write_png }
        } else {
            FixOutcome::NoReadableImage
        }
    }
}

/// A repair only counts as `Fixed` after the clipboard was emptied and at
/// least one format was written, and it writes only formats that the image
/// has and the settings ask for.
pub proof fn lemma_plan_outcome(
    config: AppConfig,
    dib: Option<Seq<u8>>,
    png: Option<Seq<u8>>,
    read: bool,
)
    ensures
        spec_plan_outcome(spec_plan(config, dib, png, read)) matches FixOutcome::Fixed {
            wrote_dib,
            wrote_png,
        } ==> read && (wrote_dib || wrote_png) && (wrote_dib ==> config.write_dib && dib is Some)
            && (wrote_png ==> config.write_png && png is Some),
        !read ==> spec_plan_outcome(spec_plan(config, dib, png, read))
            == FixOutcome::NoReadableImage,
{
}

/// Whenever an image was read, the clipboard is emptied before anything is
/// written back, whatever formats the image holds; each format is written
/// back exactly when the image has it and the settings ask for it; and when
/// no image was read, the clipboard is left alone.
pub proof fn lemma_plan_for_image(config: AppConfig, dib: Option<Seq<u8>>, png: Option<Seq<u8>>)
    ensures
        spec_plan(config, dib, png, true).clear_clipboard,
        spec_plan(config, dib, png, true).write_dib == (config.write_dib && dib is Some),
        spec_plan(config, dib, png, true).write_png == (config.write_png && png is Some),
        !spec_plan(config, dib, png, false).clear_clipboard,
        !spec_plan(config, dib, png, false).write_dib,
        !spec_plan(config, dib, png, false).write_png,
{
}

// ---------------------------------------------------------------------------
// The repair service
// ---------------------------------------------------------------------------

/// Whether a clipboard change `elapsed_ms` milliseconds after the last repair
/// is taken to be caused by that repair.
pub fn within_self_trigger_window(elapsed_ms: u128, window_ms: u64) -> (r: bool)
    ensures
        r == (elapsed_ms < window_ms),
{
    elapsed_ms < window_ms as u128
}

/// Whether a change `since_last_fix_ms` milliseconds after the last repair
/// (`None`: there was none) comes within the window of `window_ms`.
pub open spec fn spec_self_trigger(window_ms: u64, since_last_fix_ms: Option<u128>) -> bool {
    since_last_fix_ms matches Some(ms) && ms < window_ms
}

/// A change counts as the last repair's own exactly when fewer whole
/// milliseconds than the window have passed since that repair; with no
/// repair made, no change does. Every later change is repaired.
pub proof fn lemma_self_trigger_window(window_ms: u64, ms: u128)
    ensures
        spec_self_trigger(window_ms, Some(ms)) <==> ms < window_ms,
        ms >= window_ms ==> !spec_self_trigger(window_ms, Some(ms)),
        !spec_self_trigger(window_ms, None),
{
}

/// Repairs the clipboard on request, skipping the change that its own
/// repair causes.
#[derive(Debug)]
pub struct ClipboardService {
    self_trigger_window_ms: u64,
    last_fix: Option<std::time::Instant>,
}

impl ClipboardService {
    /// How long after a repair a change counts as caused by it.
    pub closed spec fn spec_window_ms(self) -> u64 {
        self.self_trigger_window_ms
    }

    /// Whether a repair has been made.
    pub closed spec fn spec_has_fixed(self) -> bool {
        self.last_fix is Some
    }

    /// When the last `Fixed` repair was made, if one was.
    pub closed spec fn spec_last_fix(self) -> Option<std::time::Instant> {
        self.last_fix
    }

    /// A service that has not repaired anything yet.
    pub fn new() -> (s: ClipboardService)
        ensures
            s.spec_window_ms() == SELF_TRIGGER_WINDOW_MS,
            !s.spec_has_fixed(),
    {
        ClipboardService { self_trigger_window_ms: SELF_TRIGGER_WINDOW_MS, last_fix: None }
    }

    /// The whole milliseconds since the last `Fixed` repair, read from the
    /// clock; `None` when there was none.
    fn millis_since_last_fix(&self) -> (r: Option<u128>)
        ensures
            r is Some <==> self.spec_has_fixed(),
    {
        match &self.last_fix {
            Some(instant) => {
                let since = elapsed(instant);
                Some(whole_millis(&since))
            },
            None => None,
        }
    }

    /// Whether a change `since_last_fix_ms` milliseconds after the last
    /// `Fixed` repair (`None`: there was none) is probably that repair's own:
    /// it is when it comes within the window.
    pub fn is_probable_self_trigger(&self, since_last_fix_ms: Option<u128>) -> (r: bool)
        ensures
            r == spec_self_trigger(self.spec_window_ms(), since_last_fix_ms),
            r <==> (since_last_fix_ms matches Some(ms) && ms < self.spec_window_ms()),
    {
        match since_last_fix_ms {
            Some(ms) => within_self_trigger_window(ms, self.self_trigger_window_ms),
            None => false,
        }
    }

    /// One repair, given the time since the last `Fixed` repair
    /// (`None`: there was none): nothing when the settings disable repairs, a
    /// skip when the change comes within the window after the last repair,
    /// else the repair by `normalize`. A `Fixed` result restarts the window:
    /// the moment that `clock` gives after the repair becomes the last repair's.
    pub fn fix_with_elapsed<F, C>(
        &mut self,
        config: &AppConfig,
        since_last_fix_ms: Option<u128>,
        normalize: F,
        clock: C,
    ) -> (r: Result<FixOutcome, ClipboardError>) where
        F: FnOnce(&AppConfig) -> Result<FixOutcome, ClipboardError>,
        C: FnOnce() -> std::time::Instant,

        requires
            config.enabled && !spec_self_trigger(old(self).spec_window_ms(), since_last_fix_ms)
                ==> call_requires(normalize, (config,)),
            call_requires(clock, ()),
        ensures
            !config.enabled ==> (r matches Ok(FixOutcome::Disabled)) && *final(self) == *old(self),
            config.enabled && spec_self_trigger(old(self).spec_window_ms(), since_last_fix_ms) ==> (
            r matches Ok(FixOutcome::SkippedSelfTrigger)) && *final(self) == *old(self),
            config.enabled && !spec_self_trigger(old(self).spec_window_ms(), since_last_fix_ms)
                ==> call_ensures(normalize, (config,), r),
            final(self).spec_window_ms() == old(self).spec_window_ms(),
            (r matches Ok(FixOutcome::Fixed { .. })) ==> (final(self).spec_last_fix() matches Some(
                at,
            ) && call_ensures(clock, (), at)),
            !(r matches Ok(FixOutcome::Fixed { .. })) ==> *final(self) == *old(self),
    {
        if !config.enabled {
            return Ok(FixOutcome::Disabled);
        }
        if self.is_probable_self_trigger(since_last_fix_ms) {
            return Ok(FixOutcome::SkippedSelfTrigger);
        }
        let outcome = normalize(config)?;
        if let FixOutcome::Fixed { .. } = outcome {
            self.last_fix = Some(clock());
        }
        Ok(outcome)
    }

    /// Repairs the clipboard with `normalize` unless the settings disable
    /// repairs or the change is probably this service's own last repair, as
    /// `fix_with_elapsed` decides for the time that the clock gives. A
    /// successful `Fixed` repair restarts the window at the present moment.
    pub fn fix_now<F>(&mut self, config: &AppConfig, normalize: F) -> (r: Result<
        FixOutcome,
        ClipboardError,
    >) where F: FnOnce(&AppConfig) -> Result<FixOutcome, ClipboardError>
        requires
            config.enabled ==> call_requires(normalize, (config,)),
        ensures
            !config.enabled ==> (r matches Ok(FixOutcome::Disabled)) && *final(self) == *old(self),
            config.enabled && !old(self).spec_has_fixed() ==> call_ensures(
                normalize,
                (config,),
                r,
            ),
            config.enabled ==> (r matches Ok(FixOutcome::SkippedSelfTrigger) && *final(self)
                == *old(self) && old(self).spec_has_fixed() && old(self).spec_window_ms() > 0)
                || call_ensures(normalize, (config,), r),
            final(self).spec_window_ms() == old(self).spec_window_ms(),
            (r matches Ok(FixOutcome::Fixed { .. })) ==> (final(self).spec_last_fix() matches Some(
                at,
            ) && call_ensures(now, (), at)),
            !(r matches Ok(FixOutcome::Fixed { .. })) ==> *final(self) == *old(self),
    {
        let since_last_fix_ms = self.millis_since_last_fix();
        self.fix_with_elapsed(config, since_last_fix_ms, normalize, now)
    }
}

impl Default for ClipboardService {
    fn default() -> (s: ClipboardService)
        ensures
            s.spec_window_ms() == SELF_TRIGGER_WINDOW_MS,
            !s.spec_has_fixed(),
    {
        ClipboardService::new()
    }
}

impl ClipboardError {
    /// The text that describes the error.
    pub fn message(&self) -> (t: String)
        ensures
            t@ == (match self {
                ClipboardError::UnsupportedPlatform => "clipboard fixing is Windows-only"@,
                ClipboardError::OpenClipboardFailed => "failed to open clipboard"@,
                ClipboardError::EmptyClipboardFailed => "failed to empty clipboard"@,
                ClipboardError::ReadFormatFailed(format) => "failed to read "@ + format@,
                ClipboardError::WriteFormatFailed(format) => "failed to write "@ + format@,
                ClipboardError::InvalidImageData(reason) => "invalid image data: "@ + reason@,
                ClipboardError::AllocationFailed => "failed to allocate clipboard memory"@,
            }),
    {
        match self {
            ClipboardError::UnsupportedPlatform => "clipboard fixing is Windows-only".to_owned(),
            ClipboardError::OpenClipboardFailed => "failed to open clipboard".to_owned(),
            ClipboardError::EmptyClipboardFailed => "failed to empty clipboard".to_owned(),
            ClipboardError::ReadFormatFailed(format) => {
                let mut t = "failed to read ".to_owned();
                t.append(format);
                t
            },
            ClipboardError::WriteFormatFailed(format) => {
                let mut t = "failed to write ".to_owned();
                t.append(format);
                t
            },
            ClipboardError::InvalidImageData(reason) => {
                let mut t = "invalid image data: ".to_owned();
                t.append(reason);
                t
            },
            ClipboardError::AllocationFailed => "failed to allocate clipboard memory".to_owned(),
        }
    }
}

} // verus!
