//! The device features that are asked for, as a list of feature structures
//! with the fields that are switched on in each.
//!
//! The list is what is kept. The chain of structures that the device takes
//! is made of it where the device is called, and what the device reports
//! comes back as the values of the fields that were asked for.

use vstd::prelude::*;

verus! {

/// The structure type of the structure that heads every chain of features.
pub const PHYSICAL_DEVICE_FEATURES_2: i32 = 1000059000;

/// Bytes of one feature flag.
pub const FLAG_SIZE: usize = 4;

/// One feature structure and the flags that are switched on in it.
#[derive(Clone, Debug, PartialEq, Eq)]
pub struct EnabledFeatures {
    /// The structure type, as the device numbers it.
    pub s_type: i32,
    /// Size and alignment of the structure in bytes.
    pub size: usize,
    pub align: usize,
    /// Where in the structure each flag lies that is switched on.
    pub offsets: Vec<usize>,
}

/// Why a list is no list of features.
#[derive(Clone, Copy, Debug, PartialEq, Eq, Structural)]
pub enum FeatureError {
    /// The list does not start with the structure that heads every chain.
    NoHead,
    /// The structure with this index has a type that one before it has.
    Duplicate(usize),
    /// The structure with this index has a flag that does not lie within it.
    Offset(usize),
}

impl EnabledFeatures {
    /// A feature structure with the flags at `offsets` switched on.
    pub fn new(s_type: i32, size: usize, align: usize, offsets: Vec<usize>) -> (features: Self)
        ensures
            features == (EnabledFeatures { s_type, size, align, offsets }),
    {
        Self { s_type, size, align, offsets }
    }

    /// Whether every flag lies within the structure.
    pub open spec fn flags_within(self) -> bool {
        forall|j: int|
            0 <= j < self.offsets@.len() ==> #[trigger] self.offsets@[j] + FLAG_SIZE <= self.size
    }

    /// Whether every flag lies within the structure.
    pub fn check_flags(&self) -> (within: bool)
        ensures
            within == self.flags_within(),
    {
        let mut j: usize = 0;
        while j < self.offsets.len()
            invariant
                j <= self.offsets@.len(),
                forall|k: int|
                    0 <= k < j ==> #[trigger] self.offsets@[k] + FLAG_SIZE <= self.size,
            decreases self.offsets@.len() - j,
        {
            let offset: usize = self.offsets[j];
            if offset > self.size || self.size - offset < FLAG_SIZE {
                assert(!(self.offsets@[j as int] + FLAG_SIZE <= self.size));
                return false;
            }
            j += 1;
        }
        true
    }
}

/// Whether the structure with index `i` has a type that none before it has.
pub open spec fn is_new_type(features: Seq<EnabledFeatures>, i: int) -> bool {
    forall|j: int| 0 <= j < i ==> (#[trigger] features[j]).s_type != features[i].s_type
}

/// Whether the first `n` structures are well formed: no type comes twice,
/// and every flag lies within its structure.
pub open spec fn structures_fine(features: Seq<EnabledFeatures>, n: int) -> bool {
    forall|i: int|
        0 <= i < n ==> is_new_type(features, i) && (#[trigger] features[i]).flags_within()
}

/// Whether `features` is a list of features: it starts with the structure
/// that heads every chain, and its structures are well formed.
pub open spec fn is_feature_list(features: Seq<EnabledFeatures>) -> bool {
    &&& features.len() > 0
    &&& features[0].s_type == PHYSICAL_DEVICE_FEATURES_2
    &&& structures_fine(features, features.len() as int)
}

/// Whether `error` is the first fault of `features`.
pub open spec fn is_feature_fault(features: Seq<EnabledFeatures>, error: FeatureError) -> bool {
    match error {
        FeatureError::NoHead => features.len() == 0 || features[0].s_type
            != PHYSICAL_DEVICE_FEATURES_2,
        FeatureError::Duplicate(i) => {
            &&& features.len() > 0 && features[0].s_type == PHYSICAL_DEVICE_FEATURES_2
            &&& i < features.len()
            &&& structures_fine(features, i as int)
            &&& !is_new_type(features, i as int)
        },
        FeatureError::Offset(i) => {
            &&& features.len() > 0 && features[0].s_type == PHYSICAL_DEVICE_FEATURES_2
            &&& i < features.len()
            &&& structures_fine(features, i as int)
            &&& is_new_type(features, i as int)
            &&& !features[i as int].flags_within()
        },
    }
}

/// The features that are asked for.
#[derive(Debug, PartialEq, Eq)]
pub struct VkFeatures {
    features: Vec<EnabledFeatures>,
}

impl View for VkFeatures {
    type V = Seq<EnabledFeatures>;

    closed spec fn view(&self) -> Seq<EnabledFeatures> {
        self.features@
    }
}

/// The features that are asked for, ready to be handed to the device.
#[derive(Clone, Copy, Debug)]
pub struct VkFeatureGuard<'a> {
    parent: &'a VkFeatures,
}

impl<'a> View for VkFeatureGuard<'a> {
    type V = Seq<EnabledFeatures>;

    closed spec fn view(&self) -> Seq<EnabledFeatures> {
        self.parent@
    }
}

/// Whether the device supports all that is asked for: it reports the flags
/// of every structure, and every flag is set.
pub open spec fn all_supported(features: Seq<EnabledFeatures>, reported: Seq<Vec<u32>>) -> bool {
    &&& reported.len() == features.len()
    &&& forall|i: int|
        0 <= i < features.len() ==> (#[trigger] reported[i])@.len() == features[i].offsets@.len()
    &&& forall|i: int, j: int|
        0 <= i < reported.len() && 0 <= j < reported[i]@.len() ==> #[trigger] reported[i]@[j] != 0
}

impl VkFeatures {
    #[verifier::type_invariant]
    spec fn inv(self) -> bool {
        is_feature_list(self.features@)
    }

    /// The features of `features`, if that is a list of features.
    pub fn new(features: Vec<EnabledFeatures>) -> (list: Result<VkFeatures, FeatureError>)
        ensures
            match list {
                Ok(l) => l@ == features@ && is_feature_list(features@),
                Err(e) => is_feature_fault(features@, e),
            },
    {
        if features.len() == 0 || features[0].s_type != PHYSICAL_DEVICE_FEATURES_2 {
            return Err(FeatureError::NoHead);
        }
        let mut i: usize = 0;
        while i < features.len()
            invariant
                i <= features@.len(),
                features@.len() > 0 && features@[0].s_type == PHYSICAL_DEVICE_FEATURES_2,
                structures_fine(features@, i as int),
            decreases features@.len() - i,
        {
            let mut j: usize = 0;
            while j < i
                invariant
                    j <= i < features@.len(),
                    features@.len() > 0 && features@[0].s_type == PHYSICAL_DEVICE_FEATURES_2,
                    structures_fine(features@, i as int),
                    forall|k: int|
                        0 <= k < j ==> (#[trigger] features@[k]).s_type != features@[i as int].s_type,
                decreases i - j,
            {
                if features[j].s_type == features[i].s_type {
                    return Err(FeatureError::Duplicate(i));
                }
                j += 1;
            }
            if !features[i].check_flags() {
                return Err(FeatureError::Offset(i));
            }
            i += 1;
        }
        Ok(VkFeatures { features })
    }

    /// The list, ready to be handed to the device.
    pub fn get_list(&self) -> (guard: VkFeatureGuard<'_>)
        ensures
            guard@ == self@,
    {
        VkFeatureGuard { parent: self }
    }
}

impl<'a> VkFeatureGuard<'a> {
    /// The structures to chain, in the order of the chain. They are a list
    /// of features.
    pub fn get(&self) -> (features: &Vec<EnabledFeatures>)
        ensures
            features@ == self@,
            is_feature_list(self@),
    {
        proof {
            use_type_invariant(self.parent);
        }
        &self.parent.features
    }

    /// Whether the device supports all that is asked for. `reported` holds,
    /// for every structure, the values that the device reports of the flags
    /// that are asked for, in their order.
    pub fn supported(&self, reported: &[Vec<u32>]) -> (supported: bool)
        ensures
            supported == all_supported(self@, reported@),
    {
        let features = &self.parent.features;
        if reported.len() != features.len() {
            return false;
        }
        let mut i: usize = 0;
        while i < reported.len()
            invariant
                i <= reported@.len(),
                features@ == self@,
                reported@.len() == features@.len(),
                forall|a: int|
                    0 <= a < i ==> (#[trigger] reported@[a])@.len() == features@[a].offsets@.len(),
                forall|a: int, b: int|
                    0 <= a < i && 0 <= b < reported@[a]@.len() ==> #[trigger] reported@[a]@[b]
                        != 0,
            decreases reported@.len() - i,
        {
            let flags = &reported[i];
            if flags.len() != features[i].offsets.len() {
                assert(reported@[i as int]@.len() != features@[i as int].offsets@.len());
                return false;
            }
            let mut j: usize = 0;
            while j < flags.len()
                invariant
                    j <= flags@.len(),
                    i < reported@.len(),
                    features@ == self@,
                    reported@.len() == features@.len(),
                    *flags == reported@[i as int],
                    forall|b: int| 0 <= b < j ==> #[trigger] flags@[b] != 0,
                decreases flags@.len() - j,
            {
                if flags[j] == 0 {
                    assert(reported@[i as int]@[j as int] == 0);
                    return false;
                }
                j += 1;
            }
            i += 1;
        }
        true
    }
}

} // verus!
