use vstd::prelude::*;

verus! {

/// Features a browser XR session can be asked for.
#[derive(Clone, Copy, Debug, PartialEq, Eq)]
pub enum WxrFeature {
    Anchors,
    BoundedFloor,
    DepthSensing,
    DomOverlay,
    HandTracking,
    HitTest,
    Layers,
    LightEstimation,
    LocalFloor,
    SecondaryViews,
    Unbounded,
    Viewer,
    /// A feature given by its name.
    Unknown(&'static str),
}

/// The name under which the browser knows a feature.
pub open spec fn feature_name(f: WxrFeature) -> Seq<char> {
    match f {
        WxrFeature::Anchors => "anchors"@,
        WxrFeature::BoundedFloor => "bounded-floor"@,
        WxrFeature::DepthSensing => "depth-sensing"@,
        WxrFeature::DomOverlay => "dom-overlay"@,
        WxrFeature::HandTracking => "hand-tracking"@,
        WxrFeature::HitTest => "hit-test"@,
        WxrFeature::Layers => "layers"@,
        WxrFeature::LightEstimation => "light-estimation"@,
        WxrFeature::LocalFloor => "local-floor"@,
        WxrFeature::SecondaryViews => "secondary-views"@,
        WxrFeature::Unbounded => "unbounded"@,
        WxrFeature::Viewer => "viewer"@,
        WxrFeature::Unknown(name) => name@,
    }
}

impl WxrFeature {
    /// The feature's name.
    pub fn as_str(&self) -> (r: &'static str)
        ensures
            r@ == feature_name(*self),
    {
        match self {
            WxrFeature::Anchors => "anchors",
            WxrFeature::BoundedFloor => "bounded-floor",
            WxrFeature::DepthSensing => "depth-sensing",
            WxrFeature::DomOverlay => "dom-overlay",
            WxrFeature::HandTracking => "hand-tracking",
            WxrFeature::HitTest => "hit-test",
            WxrFeature::Layers => "layers",
            WxrFeature::LightEstimation => "light-estimation",
            WxrFeature::LocalFloor => "local-floor",
            WxrFeature::SecondaryViews => "secondary-views",
            WxrFeature::Unbounded => "unbounded",
            WxrFeature::Viewer => "viewer",
            WxrFeature::Unknown(name) => name,
        }
    }
}

/// A set of feature names: each name is held once.
pub struct FeatureSet {
    names: Vec<String>,
}

impl View for FeatureSet {
    type V = Set<Seq<char>>;

    closed spec fn view(&self) -> Set<Seq<char>> {
        Set::new(|n: Seq<char>| exists|i: int| 0 <= i < self.names@.len() && self.names@[i]@ == n)
    }
}

impl FeatureSet {
    pub closed spec fn wf(&self) -> bool {
        forall|i: int, j: int|
            0 <= i < j < self.names@.len() ==> self.names@[i]@ != self.names@[j]@
    }

    /// The names held, in the order they were first enabled.
    pub closed spec fn enabled_order(&self) -> Seq<Seq<char>> {
        self.names@.map_values(|s: String| s@)
    }

    /// An empty set.
    pub fn new() -> (r: Self)
        ensures
            r.wf(),
            r@ == Set::<Seq<char>>::empty(),
            r.enabled_order() == Seq::<Seq<char>>::empty(),
    {
        let r = FeatureSet { names: Vec::new() };
        assert(r@ =~= Set::<Seq<char>>::empty());
        assert(r.enabled_order() =~= Seq::<Seq<char>>::empty());
        r
    }

    fn position(&self, name: &str) -> (r: Option<usize>)
        ensures
            match r {
                Some(i) => i < self.names@.len() && self.names@[i as int]@ == name@,
                None => forall|i: int| 0 <= i < self.names@.len() ==> self.names@[i]@ != name@,
            },
    {
        let owned = name.to_owned();
        let mut i: usize = 0;
        while i < self.names.len()
            invariant
                i <= self.names@.len(),
                owned@ == name@,
                forall|k: int| 0 <= k < i ==> self.names@[k]@ != name@,
            decreases self.names@.len() - i,
        {
            if self.names[i] == owned {
                return Some(i);
            }
            i = i + 1;
        }
        None
    }

    /// Adds the feature's name.
    pub fn enable(&mut self, feat: WxrFeature)
        requires
            old(self).wf(),
        ensures
            final(self).wf(),
            final(self)@ == old(self)@.insert(feature_name(feat)),
            final(self).enabled_order() == if old(self)@.contains(feature_name(feat)) {
                old(self).enabled_order()
            } else {
                old(self).enabled_order().push(feature_name(feat))
            },
    {
        let name = feat.as_str();
        if self.position(name).is_none() {
            let ghost before = self.names@;
            self.names.push(name.to_owned());
            let ghost n_new = feature_name(feat);
            assert forall|n: Seq<char>| self@.contains(n) <==> old(self)@.insert(n_new).contains(n) by {
                if old(self)@.contains(n) {
                    let i = choose|i: int| 0 <= i < before.len() && before[i]@ == n;
                    assert(self.names@[i]@ == n);
                }
                if n == n_new {
                    assert(self.names@[before.len() as int]@ == n);
                }
                if self@.contains(n) {
                    let i = choose|i: int| 0 <= i < self.names@.len() && self.names@[i]@ == n;
                    if i < before.len() {
                        assert(before[i]@ == n);
                    }
                }
            }
            assert(self@ =~= old(self)@.insert(n_new));
            assert(!old(self)@.contains(n_new));
            assert(self.enabled_order() =~= old(self).enabled_order().push(n_new));
        } else {
            assert(self@ =~= old(self)@.insert(feature_name(feat)));
            proof {
                let i = choose|i: int| 0 <= i < self.names@.len() && self.names@[i]@ == feature_name(feat);
                assert(self@.contains(feature_name(feat)));
            }
        }
    }

    /// Whether the feature's name is held.
    pub fn in_enabled(&self, feat: WxrFeature) -> (r: bool)
        ensures
            r == self@.contains(feature_name(feat)),
    {
        let found = self.position(feat.as_str());
        proof {
            if self@.contains(feature_name(feat)) {
                let i = choose|i: int| 0 <= i < self.names@.len() && self.names@[i]@ == feature_name(feat);
                assert(self.names@[i]@ == feature_name(feat));
            }
        }
        found.is_some()
    }

    /// The names held, in the order they were enabled.
    pub fn names(&self) -> (r: Vec<String>)
        ensures
            r@.map_values(|s: String| s@) == self.enabled_order(),
            forall|i: int| 0 <= i < r@.len() ==> self@.contains(#[trigger] r@[i]@),
            forall|n: Seq<char>| self@.contains(n) ==> exists|i: int| 0 <= i < r@.len() && #[trigger] r@[i]@ == n,
    {
        let r = self.names.clone();
        proof {
            assert forall|i: int| 0 <= i < r@.len() implies self@.contains(#[trigger] r@[i]@) by {
                assert(self.names@[i]@ == r@[i]@);
            }
            assert(r@.map_values(|s: String| s@) =~= self.enabled_order());
        }
        r
    }
}

/// The features a browser session must have.
pub struct WxrRequiredFeatures(pub FeatureSet);

/// The features a browser session may have.
pub struct WxrOptionalFeatures(pub FeatureSet);

impl WxrRequiredFeatures {
    /// No required features.
    pub fn new() -> (r: Self)
        ensures
            r.0.wf(),
            r.0@ == Set::<Seq<char>>::empty(),
            r.0.enabled_order() == Seq::<Seq<char>>::empty(),
    {
        WxrRequiredFeatures(FeatureSet::new())
    }

    /// Adds the feature's name, and hands the set back for further calls.
    pub fn enable(&mut self, feat: WxrFeature) -> (r: &mut Self)
        requires
            old(self).0.wf(),
        ensures
            (*r).0.wf(),
            (*r).0@ == old(self).0@.insert(feature_name(feat)),
            (*r).0.enabled_order() == if old(self).0@.contains(feature_name(feat)) {
                old(self).0.enabled_order()
            } else {
                old(self).0.enabled_order().push(feature_name(feat))
            },
            *final(self) == *final(r),
    {
        self.0.enable(feat);
        self
    }

    pub fn in_enabled(&self, feat: WxrFeature) -> (r: bool)
        ensures
            r == self.0@.contains(feature_name(feat)),
    {
        self.0.in_enabled(feat)
    }
}

impl WxrOptionalFeatures {
    /// No optional features.
    pub fn new() -> (r: Self)
        ensures
            r.0.wf(),
            r.0@ == Set::<Seq<char>>::empty(),
            r.0.enabled_order() == Seq::<Seq<char>>::empty(),
    {
        WxrOptionalFeatures(FeatureSet::new())
    }

    /// Adds the feature's name, and hands the set back for further calls.
    pub fn enable(&mut self, feat: WxrFeature) -> (r: &mut Self)
        requires
            old(self).0.wf(),
        ensures
            (*r).0.wf(),
            (*r).0@ == old(self).0@.insert(feature_name(feat)),
            (*r).0.enabled_order() == if old(self).0@.contains(feature_name(feat)) {
                old(self).0.enabled_order()
            } else {
                old(self).0.enabled_order().push(feature_name(feat))
            },
            *final(self) == *final(r),
    {
        self.0.enable(feat);
        self
    }

    pub fn in_enabled(&self, feat: WxrFeature) -> (r: bool)
        ensures
            r == self.0@.contains(feature_name(feat)),
    {
        self.0.in_enabled(feat)
    }
}

} // verus!
