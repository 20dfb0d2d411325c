use vstd::prelude::*;

verus! {

/// The graphics APIs a session can be bound to.
#[derive(Clone, Copy, Debug, PartialEq, Eq, Structural)]
pub enum GraphicsBackend {
    Vulkan,
}

/// How rendered content is composited with the real-world view.
#[derive(Clone, Copy, Debug, PartialEq, Eq, Structural)]
pub enum EnvironmentBlendMode {
    Opaque,
    Additive,
    AlphaBlend,
}

/// The view configurations a runtime may offer.
#[derive(Clone, Copy, Debug, PartialEq, Eq, Structural)]
pub enum ViewConfigurationType {
    PrimaryMono,
    PrimaryStereo,
    Other,
}

/// Width and height of a swapchain image, in pixels.
#[derive(Clone, Copy, Debug, PartialEq, Eq, Structural)]
pub struct Resolution {
    pub width: u32,
    pub height: u32,
}

/// The image sizes that one view of a view configuration recommends and allows.
#[derive(Clone, Copy, Debug, PartialEq, Eq, Structural)]
pub struct ViewConfigurationView {
    pub recommended_width: u32,
    pub recommended_height: u32,
    pub max_width: u32,
    pub max_height: u32,
}

/// Why no session configuration could be negotiated.
#[derive(Clone, Copy, Debug, PartialEq, Eq, Structural)]
pub enum NegotiationError {
    NoAvailableBackend,
    NoAvailableFormat,
    NoAvailableViewConfiguration,
}

/// The choices fixed when a session is created.
#[derive(Clone, Copy, Debug, PartialEq, Eq, Structural)]
pub struct OxrGraphicsInfo {
    pub blend_mode: EnvironmentBlendMode,
    pub resolution: Resolution,
    pub format: u32,
}

/// The first entry of `prefs` that `avail` holds.
pub open spec fn first_preferred<T>(prefs: Seq<T>, avail: Seq<T>) -> Option<T>
    decreases prefs.len(),
{
    if prefs.len() == 0 {
        None
    } else if avail.contains(prefs[0]) {
        Some(prefs[0])
    } else {
        first_preferred(prefs.drop_first(), avail)
    }
}

/// The choice on one axis: the first preferred entry that is available, or, without a
/// preference list, the first available entry.
pub open spec fn negotiated<T>(prefs: Option<Seq<T>>, avail: Seq<T>) -> Option<T> {
    match prefs {
        Some(p) => first_preferred(p, avail),
        None => if avail.len() > 0 {
            Some(avail[0])
        } else {
            None
        },
    }
}

pub open spec fn opt_view<T>(v: Option<&Vec<T>>) -> Option<Seq<T>> {
    match v {
        Some(x) => Some(x@),
        None => None,
    }
}

proof fn lemma_first_preferred_step<T>(prefs: Seq<T>, avail: Seq<T>, i: int)
    requires
        0 <= i < prefs.len(),
        !avail.contains(prefs[i]),
    ensures
        first_preferred(prefs.skip(i), avail) == first_preferred(prefs.skip(i + 1), avail),
{
    assert(prefs.skip(i)[0] == prefs[i]);
    assert(prefs.skip(i).drop_first() =~= prefs.skip(i + 1));
}

proof fn lemma_first_preferred_hit<T>(prefs: Seq<T>, avail: Seq<T>, i: int)
    requires
        0 <= i < prefs.len(),
        avail.contains(prefs[i]),
    ensures
        first_preferred(prefs.skip(i), avail) == Some(prefs[i]),
{
    assert(prefs.skip(i)[0] == prefs[i]);
}

/// The first entry of `prefs` that `avail` holds, where `same` decides equality.
fn first_available<T: Copy, F: Fn(T, T) -> bool>(prefs: &Vec<T>, avail: &Vec<T>, same: F) -> (r:
    Option<T>)
    requires
        forall|a: T, b: T| #[trigger] same.requires((a, b)),
        forall|a: T, b: T, e: bool| #[trigger] same.ensures((a, b), e) ==> e == (a == b),
    ensures
        r == first_preferred(prefs@, avail@),
{
    let mut i: usize = 0;
    assert(prefs@.skip(0) =~= prefs@);
    while i < prefs.len()
        invariant
            i <= prefs@.len(),
            forall|a: T, b: T| #[trigger] same.requires((a, b)),
            forall|a: T, b: T, e: bool| #[trigger] same.ensures((a, b), e) ==> e == (a == b),
            first_preferred(prefs@, avail@) == first_preferred(prefs@.skip(i as int), avail@),
        decreases prefs@.len() - i,
    {
        let wanted = prefs[i];
        let mut j: usize = 0;
        while j < avail.len()
            invariant
                j <= avail@.len(),
                i < prefs@.len(),
                wanted == prefs@[i as int],
                forall|a: T, b: T| #[trigger] same.requires((a, b)),
                forall|a: T, b: T, e: bool| #[trigger] same.ensures((a, b), e) ==> e == (a == b),
                first_preferred(prefs@, avail@) == first_preferred(prefs@.skip(i as int), avail@),
                forall|k: int| 0 <= k < j ==> avail@[k] != wanted,
            decreases avail@.len() - j,
        {
            if same(avail[j], wanted) {
                proof {
                    assert(avail@[j as int] == prefs@[i as int]);
                    lemma_first_preferred_hit(prefs@, avail@, i as int);
                }
                return Some(wanted);
            }
            j = j + 1;
        }
        proof {
            lemma_first_preferred_step(prefs@, avail@, i as int);
        }
        i = i + 1;
    }
    assert(prefs@.skip(i as int).len() == 0);
    None
}

/// Picks the graphics backend: the first preferred one that is available, or the first
/// available one when no preference is given.
pub fn select_backend(prefs: Option<&Vec<GraphicsBackend>>, avail: &Vec<GraphicsBackend>) -> (r:
    Result<GraphicsBackend, NegotiationError>)
    ensures
        match negotiated(opt_view(prefs), avail@) {
            Some(b) => r == Ok::<GraphicsBackend, NegotiationError>(b),
            None => r == Err::<GraphicsBackend, NegotiationError>(
                NegotiationError::NoAvailableBackend,
            ),
        },
{
    let chosen = match prefs {
        Some(p) => first_available(p, avail, |a: GraphicsBackend, b: GraphicsBackend| -> (e: bool)
            ensures e == (a == b)
            { a == b }),
        None => if avail.len() > 0 {
            Some(avail[0])
        } else {
            None
        },
    };
    match chosen {
        Some(b) => Ok(b),
        None => Err(NegotiationError::NoAvailableBackend),
    }
}

/// Picks the environment blend mode, by the same rule as the backend.
pub fn select_blend_mode(
    prefs: Option<&Vec<EnvironmentBlendMode>>,
    avail: &Vec<EnvironmentBlendMode>,
) -> (r: Result<EnvironmentBlendMode, NegotiationError>)
    ensures
        match negotiated(opt_view(prefs), avail@) {
            Some(b) => r == Ok::<EnvironmentBlendMode, NegotiationError>(b),
            None => r == Err::<EnvironmentBlendMode, NegotiationError>(
                NegotiationError::NoAvailableBackend,
            ),
        },
{
    let chosen = match prefs {
        Some(p) => first_available(
            p,
            avail,
            |a: EnvironmentBlendMode, b: EnvironmentBlendMode| -> (e: bool)
                ensures e == (a == b)
                { a == b },
        ),
        None => if avail.len() > 0 {
            Some(avail[0])
        } else {
            None
        },
    };
    match chosen {
        Some(b) => Ok(b),
        None => Err(NegotiationError::NoAvailableBackend),
    }
}

/// Picks the swapchain format, given as the runtime's format code, by the same rule.
pub fn select_format(prefs: Option<&Vec<u32>>, avail: &Vec<u32>) -> (r: Result<
    u32,
    NegotiationError,
>)
    ensures
        match negotiated(opt_view(prefs), avail@) {
            Some(f) => r == Ok::<u32, NegotiationError>(f),
            None => r == Err::<u32, NegotiationError>(NegotiationError::NoAvailableFormat),
        },
{
    let chosen = match prefs {
        Some(p) => first_available(p, avail, |a: u32, b: u32| -> (e: bool)
            ensures e == (a == b)
            { a == b }),
        None => if avail.len() > 0 {
            Some(avail[0])
        } else {
            None
        },
    };
    match chosen {
        Some(f) => Ok(f),
        None => Err(NegotiationError::NoAvailableFormat),
    }
}

/// A requested resolution equals a view's recommended image size.
pub open spec fn is_recommended(r: Resolution, v: ViewConfigurationView) -> bool {
    v.recommended_width == r.width && v.recommended_height == r.height
}

/// A requested resolution fits within a view's maximum image size.
pub open spec fn fits_max(r: Resolution, v: ViewConfigurationView) -> bool {
    v.max_width >= r.width && v.max_height >= r.height
}

pub open spec fn recommended_by_some(r: Resolution, views: Seq<ViewConfigurationView>) -> bool {
    exists|k: int| 0 <= k < views.len() && is_recommended(r, #[trigger] views[k])
}

/// A requested resolution exceeds no view's maximum image size.
pub open spec fn fits_every(r: Resolution, views: Seq<ViewConfigurationView>) -> bool {
    forall|k: int| 0 <= k < views.len() ==> fits_max(r, #[trigger] views[k])
}

/// The first entry of `prefs` that satisfies `pred`.
pub open spec fn first_such(prefs: Seq<Resolution>, pred: spec_fn(Resolution) -> bool) -> Option<
    Resolution,
>
    decreases prefs.len(),
{
    if prefs.len() == 0 {
        None
    } else if pred(prefs[0]) {
        Some(prefs[0])
    } else {
        first_such(prefs.drop_first(), pred)
    }
}

/// The resolution chosen from a preference list: the first one that a view recommends
/// exactly, else the first one that exceeds no view's maximum.
pub open spec fn preferred_resolution(prefs: Seq<Resolution>, views: Seq<ViewConfigurationView>) -> Option<Resolution> {
    match first_such(prefs, exact_match(views)) {
        Some(r) => Some(r),
        None => first_such(prefs, within_max(views)),
    }
}

pub open spec fn exact_match(views: Seq<ViewConfigurationView>) -> spec_fn(Resolution) -> bool {
    |r: Resolution| recommended_by_some(r, views)
}

pub open spec fn within_max(views: Seq<ViewConfigurationView>) -> spec_fn(Resolution) -> bool {
    |r: Resolution| fits_every(r, views)
}

/// The resolution chosen with or without a preference list.
pub open spec fn resolution_choice(prefs: Option<Seq<Resolution>>, views: Seq<ViewConfigurationView>) -> Option<Resolution> {
    match prefs {
        Some(p) => preferred_resolution(p, views),
        None => if views.len() > 0 {
            Some(Resolution { width: views[0].recommended_width, height: views[0].recommended_height })
        } else {
            None
        },
    }
}

/// Stereo rendering needs the primary stereo configuration with exactly two views.
pub open spec fn supports_stereo(types: Seq<ViewConfigurationType>, views: Seq<ViewConfigurationView>) -> bool {
    types.contains(ViewConfigurationType::PrimaryStereo) && views.len() == 2
}

/// The outcome of resolution negotiation.
pub open spec fn resolution_outcome(
    prefs: Option<Seq<Resolution>>,
    types: Seq<ViewConfigurationType>,
    views: Seq<ViewConfigurationView>,
) -> Result<Resolution, NegotiationError> {
    if !supports_stereo(types, views) {
        Err(NegotiationError::NoAvailableViewConfiguration)
    } else {
        match resolution_choice(prefs, views) {
            Some(r) => Ok(r),
            None => Err(NegotiationError::NoAvailableViewConfiguration),
        }
    }
}

fn recommended_by_any(r: Resolution, views: &Vec<ViewConfigurationView>) -> (b: bool)
    ensures
        b == recommended_by_some(r, views@),
{
    let mut k: usize = 0;
    while k < views.len()
        invariant
            k <= views@.len(),
            forall|m: int| 0 <= m < k ==> !is_recommended(r, #[trigger] views@[m]),
        decreases views@.len() - k,
    {
        if views[k].recommended_width == r.width && views[k].recommended_height == r.height {
            return true;
        }
        k = k + 1;
    }
    false
}

fn fits_all(r: Resolution, views: &Vec<ViewConfigurationView>) -> (b: bool)
    ensures
        b == fits_every(r, views@),
{
    let mut k: usize = 0;
    while k < views.len()
        invariant
            k <= views@.len(),
            forall|m: int| 0 <= m < k ==> fits_max(r, #[trigger] views@[m]),
        decreases views@.len() - k,
    {
        if !(views[k].max_width >= r.width && views[k].max_height >= r.height) {
            assert(!fits_max(r, views@[k as int]));
            return false;
        }
        k = k + 1;
    }
    true
}

proof fn lemma_first_such_skip(prefs: Seq<Resolution>, pred: spec_fn(Resolution) -> bool, i: int)
    requires
        0 <= i < prefs.len(),
    ensures
        first_such(prefs.skip(i), pred) == if pred(prefs[i]) {
            Some(prefs[i])
        } else {
            first_such(prefs.skip(i + 1), pred)
        },
{
    assert(prefs.skip(i)[0] == prefs[i]);
    assert(prefs.skip(i).drop_first() =~= prefs.skip(i + 1));
}

/// Picks the swapchain resolution for a stereo view configuration.
pub fn select_resolution(
    prefs: Option<&Vec<Resolution>>,
    types: &Vec<ViewConfigurationType>,
    views: &Vec<ViewConfigurationView>,
) -> (r: Result<Resolution, NegotiationError>)
    ensures
        r == resolution_outcome(opt_view(prefs), types@, views@),
{
    let wanted = vec![ViewConfigurationType::PrimaryStereo];
    let stereo = first_available(
        &wanted,
        types,
        |a: ViewConfigurationType, b: ViewConfigurationType| -> (e: bool)
            ensures e == (a == b)
            { a == b },
    );
    proof {
        let one = seq![ViewConfigurationType::PrimaryStereo];
        assert(wanted@ =~= one);
        assert(one.drop_first().len() == 0);
        assert(first_preferred(one, types@) == if types@.contains(ViewConfigurationType::PrimaryStereo) {
            Some(ViewConfigurationType::PrimaryStereo)
        } else {
            first_preferred(one.drop_first(), types@)
        });
    }
    if stereo.is_none() || views.len() != 2 {
        return Err(NegotiationError::NoAvailableViewConfiguration);
    }
    assert(supports_stereo(types@, views@));
    match prefs {
        None => Ok(Resolution { width: views[0].recommended_width, height: views[0].recommended_height }),
        Some(p) => {
            let ghost exact = exact_match(views@);
            let ghost fitting = within_max(views@);
            let mut i: usize = 0;
            assert(p@.skip(0) =~= p@);
            while i < p.len()
                invariant
                    i <= p@.len(),
                    exact == exact_match(views@),
                    supports_stereo(types@, views@),
                    opt_view(prefs) == Some(p@),
                    first_such(p@, exact) == first_such(p@.skip(i as int), exact),
                decreases p@.len() - i,
            {
                proof {
                    lemma_first_such_skip(p@, exact, i as int);
                }
                if recommended_by_any(p[i], views) {
                    return Ok(p[i]);
                }
                i = i + 1;
            }
            assert(p@.skip(i as int).len() == 0);
            let mut i: usize = 0;
            while i < p.len()
                invariant
                    i <= p@.len(),
                    exact == exact_match(views@),
                    fitting == within_max(views@),
                    supports_stereo(types@, views@),
                    opt_view(prefs) == Some(p@),
                    first_such(p@, exact) is None,
                    first_such(p@, fitting) == first_such(p@.skip(i as int), fitting),
                decreases p@.len() - i,
            {
                proof {
                    lemma_first_such_skip(p@, fitting, i as int);
                }
                if fits_all(p[i], views) {
                    return Ok(p[i]);
                }
                i = i + 1;
            }
            assert(p@.skip(i as int).len() == 0);
            Err(NegotiationError::NoAvailableViewConfiguration)
        },
    }
}

/// The names that a list of extension strings holds.
pub open spec fn names(v: Seq<String>) -> Seq<Seq<char>> {
    v.map_values(|s: String| s@)
}

/// The requested extensions that are available (`keep == true`) or missing (`keep == false`),
/// in the order they were requested.
pub open spec fn partition_requested(req: Seq<Seq<char>>, avail: Seq<Seq<char>>, keep: bool) -> Seq<
    Seq<char>,
>
    decreases req.len(),
{
    if req.len() == 0 {
        Seq::empty()
    } else {
        let rest = partition_requested(req.drop_last(), avail, keep);
        if avail.contains(req.last()) == keep {
            rest.push(req.last())
        } else {
            rest
        }
    }
}

/// The extension that a backend needs from the runtime.
pub open spec fn backend_extension(b: GraphicsBackend) -> Seq<char> {
    match b {
        GraphicsBackend::Vulkan => "XR_KHR_vulkan_enable2"@,
    }
}

/// The backends that a runtime offering `avail` supports, in declaration order.
pub open spec fn backends_for(avail: Seq<Seq<char>>) -> Seq<GraphicsBackend> {
    if avail.contains(backend_extension(GraphicsBackend::Vulkan)) {
        seq![GraphicsBackend::Vulkan]
    } else {
        Seq::empty()
    }
}

/// Requested extensions split by availability; missing ones are dropped with a warning.
pub struct ExtensionResolution {
    pub enabled: Vec<String>,
    pub unavailable: Vec<String>,
}

fn contains_name(items: &Vec<String>, x: &String) -> (r: bool)
    ensures
        r == names(items@).contains(x@),
{
    let mut j: usize = 0;
    while j < items.len()
        invariant
            j <= items@.len(),
            forall|k: int| 0 <= k < j ==> items@[k]@ != x@,
        decreases items@.len() - j,
    {
        if items[j] == *x {
            assert(names(items@)[j as int] == x@);
            return true;
        }
        j = j + 1;
    }
    proof {
        if names(items@).contains(x@) {
            let k = choose|k: int| 0 <= k < names(items@).len() && names(items@)[k] == x@;
            assert(items@[k]@ == x@);
        }
    }
    false
}

/// Intersects the requested extensions with the available ones, and lists the requested ones
/// that the runtime lacks.
pub fn resolve_extensions(requested: &Vec<String>, available: &Vec<String>) -> (r:
    ExtensionResolution)
    ensures
        names(r.enabled@) == partition_requested(names(requested@), names(available@), true),
        names(r.unavailable@) == partition_requested(names(requested@), names(available@), false),
{
    let mut enabled: Vec<String> = Vec::new();
    let mut unavailable: Vec<String> = Vec::new();
    let ghost req = names(requested@);
    let ghost av = names(available@);
    let mut i: usize = 0;
    while i < requested.len()
        invariant
            i <= requested@.len(),
            req == names(requested@),
            av == names(available@),
            names(enabled@) == partition_requested(req.take(i as int), av, true),
            names(unavailable@) == partition_requested(req.take(i as int), av, false),
        decreases requested@.len() - i,
    {
        let name = requested[i].clone();
        let found = contains_name(available, &name);
        proof {
            assert(req.take(i + 1).drop_last() =~= req.take(i as int));
            assert(req.take(i + 1).last() == name@);
        }
        if found {
            enabled.push(name);
            assert(names(enabled@) =~= partition_requested(req.take(i as int), av, true).push(
                req[i as int],
            ));
        } else {
            unavailable.push(name);
            assert(names(unavailable@) =~= partition_requested(req.take(i as int), av, false).push(
                req[i as int],
            ));
        }
        i = i + 1;
    }
    assert(req.take(i as int) =~= req);
    ExtensionResolution { enabled, unavailable }
}

impl GraphicsBackend {
    /// The name of the extension this backend needs.
    pub fn required_extension(&self) -> (r: String)
        ensures
            r@ == backend_extension(*self),
    {
        match self {
            GraphicsBackend::Vulkan => "XR_KHR_vulkan_enable2".to_owned(),
        }
    }
}

/// The backends that a runtime offering `available` extensions supports.
pub fn available_backends(available: &Vec<String>) -> (r: Vec<GraphicsBackend>)
    ensures
        r@ == backends_for(names(available@)),
{
    let mut r: Vec<GraphicsBackend> = Vec::new();
    let needed = GraphicsBackend::Vulkan.required_extension();
    if contains_name(available, &needed) {
        r.push(GraphicsBackend::Vulkan);
    }
    assert(r@ =~= backends_for(names(available@)));
    r
}

/// What instance negotiation settled: the backend and the extensions to enable.
pub struct InstanceChoice {
    pub backend: GraphicsBackend,
    pub extensions: ExtensionResolution,
}

/// Resolves the instance-level choices from what the runtime offers. Missing extensions never
/// fail this step; only the lack of a usable backend does.
pub fn negotiate_instance(
    requested: &Vec<String>,
    backend_prefs: Option<&Vec<GraphicsBackend>>,
    available: &Vec<String>,
) -> (r: Result<InstanceChoice, NegotiationError>)
    ensures
        match negotiated(opt_view(backend_prefs), backends_for(names(available@))) {
            Some(b) => r is Ok && r->Ok_0.backend == b,
            None => r is Err && r->Err_0 == NegotiationError::NoAvailableBackend,
        },
        r is Ok ==> names(r->Ok_0.extensions.enabled@) == partition_requested(
            names(requested@),
            names(available@),
            true,
        ) && names(r->Ok_0.extensions.unavailable@) == partition_requested(
            names(requested@),
            names(available@),
            false,
        ),
{
    let backends = available_backends(available);
    let backend = select_backend(backend_prefs, &backends)?;
    let extensions = resolve_extensions(requested, available);
    Ok(InstanceChoice { backend, extensions })
}

/// The preferences fixed at startup for every session that will be created.
pub struct SessionConfigInfo {
    pub blend_modes: Option<Vec<EnvironmentBlendMode>>,
    pub formats: Option<Vec<u32>>,
    pub resolutions: Option<Vec<Resolution>>,
}

/// The runtime's code of the 8-bit RGBA sRGB swapchain format.
pub const FORMAT_RGBA8_UNORM_SRGB: u32 = 43;

impl SessionConfigInfo {
    /// No preference on blend mode or resolution, and the 8-bit RGBA sRGB format.
    pub fn new_default() -> (r: Self)
        ensures
            r.blend_modes is None,
            r.resolutions is None,
            r.formats is Some && r.formats->0@ == seq![FORMAT_RGBA8_UNORM_SRGB],
    {
        let formats = vec![FORMAT_RGBA8_UNORM_SRGB];
        SessionConfigInfo { blend_modes: None, formats: Some(formats), resolutions: None }
    }
}

/// The extensions asked for unless configured otherwise: passthrough and hand tracking.
pub fn default_requested_extensions() -> (r: Vec<String>)
    ensures
        names(r@) == seq!["XR_FB_passthrough"@, "XR_EXT_hand_tracking"@],
{
    let mut r: Vec<String> = Vec::new();
    r.push("XR_FB_passthrough".to_owned());
    r.push("XR_EXT_hand_tracking".to_owned());
    assert(names(r@) =~= seq!["XR_FB_passthrough"@, "XR_EXT_hand_tracking"@]);
    r
}

/// What the runtime offers once a session exists.
pub struct SessionCapabilities {
    pub view_configurations: Vec<ViewConfigurationType>,
    pub views: Vec<ViewConfigurationView>,
    pub formats: Vec<u32>,
    pub blend_modes: Vec<EnvironmentBlendMode>,
}

pub open spec fn opt_seq<T>(v: Option<Vec<T>>) -> Option<Seq<T>> {
    match v {
        Some(x) => Some(x@),
        None => None,
    }
}

/// The outcome of session negotiation: resolution first, then format, then blend mode.
pub open spec fn session_outcome(config: SessionConfigInfo, caps: SessionCapabilities) -> Result<
    OxrGraphicsInfo,
    NegotiationError,
> {
    match resolution_outcome(opt_seq(config.resolutions), caps.view_configurations@, caps.views@) {
        Err(e) => Err(e),
        Ok(resolution) => match negotiated(opt_seq(config.formats), caps.formats@) {
            None => Err(NegotiationError::NoAvailableFormat),
            Some(format) => match negotiated(opt_seq(config.blend_modes), caps.blend_modes@) {
                None => Err(NegotiationError::NoAvailableBackend),
                Some(blend_mode) => Ok(OxrGraphicsInfo { blend_mode, resolution, format }),
            },
        },
    }
}

fn as_opt_ref<T>(v: &Option<Vec<T>>) -> (r: Option<&Vec<T>>)
    ensures
        opt_view(r) == opt_seq(*v),
{
    match v {
        Some(x) => Some(x),
        None => None,
    }
}

/// Resolves the per-session choices against what the runtime offers.
pub fn negotiate_session(config: &SessionConfigInfo, caps: &SessionCapabilities) -> (r: Result<
    OxrGraphicsInfo,
    NegotiationError,
>)
    ensures
        r == session_outcome(*config, *caps),
{
    let resolution = select_resolution(
        as_opt_ref(&config.resolutions),
        &caps.view_configurations,
        &caps.views,
    )?;
    let format = select_format(as_opt_ref(&config.formats), &caps.formats)?;
    let blend_mode = select_blend_mode(as_opt_ref(&config.blend_modes), &caps.blend_modes)?;
    Ok(OxrGraphicsInfo { blend_mode, resolution, format })
}

proof fn lemma_first_preferred_is_first<T>(prefs: Seq<T>, avail: Seq<T>)
    ensures
        match first_preferred(prefs, avail) {
            Some(x) => exists|i: int|
                0 <= i < prefs.len() && prefs[i] == x && avail.contains(x) && forall|j: int|
                    0 <= j < i ==> !avail.contains(#[trigger] prefs[j]),
            None => forall|i: int| 0 <= i < prefs.len() ==> !avail.contains(#[trigger] prefs[i]),
        },
    decreases prefs.len(),
{
    if prefs.len() > 0 && !avail.contains(prefs[0]) {
        let rest = prefs.drop_first();
        lemma_first_preferred_is_first(rest, avail);
        match first_preferred(rest, avail) {
            Some(x) => {
                let i = choose|i: int|
                    0 <= i < rest.len() && rest[i] == x && avail.contains(x) && forall|j: int|
                        0 <= j < i ==> !avail.contains(#[trigger] rest[j]);
                assert forall|j: int| 0 <= j < i + 1 implies !avail.contains(#[trigger] prefs[j]) by {
                    if j > 0 {
                        assert(prefs[j] == rest[j - 1]);
                    }
                }
                assert(prefs[i + 1] == x);
            },
            None => {
                assert forall|i: int| 0 <= i < prefs.len() implies !avail.contains(
                    #[trigger] prefs[i],
                ) by {
                    if i > 0 {
                        assert(prefs[i] == rest[i - 1]);
                    }
                }
            },
        }
    }
}

/// On every axis, the negotiated choice is one of the available entries; with a preference
/// list that shares an entry with the available ones, it is the first preferred entry that is
/// available; without one, it is the first available entry.
pub proof fn lemma_negotiated_priority<T>(prefs: Option<Seq<T>>, avail: Seq<T>)
    ensures
        negotiated(prefs, avail) is Some ==> avail.contains(negotiated(prefs, avail)->0),
        prefs is Some && (exists|x: T| prefs->0.contains(x) && avail.contains(x)) ==> exists|i: int|
            0 <= i < prefs->0.len() && negotiated(prefs, avail) == Some(prefs->0[i])
                && avail.contains(prefs->0[i]) && forall|j: int|
                0 <= j < i ==> !avail.contains(#[trigger] prefs->0[j]),
        prefs is None ==> (negotiated(prefs, avail) is Some <==> avail.len() > 0),
        prefs is None && avail.len() > 0 ==> negotiated(prefs, avail) == Some(avail[0]),
{
    match prefs {
        Some(p) => {
            lemma_first_preferred_is_first(p, avail);
            if exists|x: T| p.contains(x) && avail.contains(x) {
                let x = choose|x: T| p.contains(x) && avail.contains(x);
                let k = choose|k: int| 0 <= k < p.len() && p[k] == x;
                assert(avail.contains(p[k]));
            }
        },
        None => {
            if avail.len() > 0 {
                assert(avail.contains(avail[0]));
            }
        },
    }
}

} // verus!
