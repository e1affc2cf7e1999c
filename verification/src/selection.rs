//! Choosing a physical device: checking what a device offers against what the
//! application needs, and ranking the devices that qualify.

use vstd::prelude::*;
use crate::enums::DeviceKind;
use crate::errors::DeviceError;

verus! {

/// Whether `names` holds a string equal to `name`.
pub open spec fn has_name(names: Seq<String>, name: Seq<char>) -> bool {
    exists|j: int| 0 <= j < names.len() && #[trigger] names[j]@ == name
}

/// Whether every name in `required` occurs in `available`.
pub open spec fn all_present(required: Seq<String>, available: Seq<String>) -> bool {
    forall|i: int| 0 <= i < required.len() ==> has_name(available, #[trigger] required[i]@)
}

/// Whether `k` is the position of the first name of `required` that
/// `available` lacks.
pub open spec fn first_missing(required: Seq<String>, available: Seq<String>, k: int) -> bool {
    &&& 0 <= k < required.len()
    &&& !has_name(available, required[k]@)
    &&& forall|i: int| 0 <= i < k ==> has_name(available, #[trigger] required[i]@)
}

/// Whether `available` holds a string equal to `name`.
pub fn contains_name(available: &Vec<String>, name: &String) -> (r: bool)
    ensures r == has_name(available@, name@),
{
    let mut j: usize = 0;
    while j < available.len()
        invariant
            j <= available.len(),
            forall|i: int| 0 <= i < j ==> available@[i]@ != name@,
        decreases available.len() - j,
    {
        if available[j] == *name {
            assert(available@[j as int]@ == name@);
            return true;
        }
        j = j + 1;
    }
    proof {
        assert forall|i: int| 0 <= i < available@.len() implies #[trigger] available@[i]@ != name@ by {}
    }
    false
}

/// The position of the first name of `required` that `available` lacks, if any.
pub fn find_missing(required: &Vec<String>, available: &Vec<String>) -> (r: Option<usize>)
    ensures
        r is None <==> all_present(required@, available@),
        r matches Some(k) ==> first_missing(required@, available@, k as int),
{
    let mut i: usize = 0;
    while i < required.len()
        invariant
            i <= required.len(),
            forall|k: int| 0 <= k < i ==> has_name(available@, #[trigger] required@[k]@),
        decreases required.len() - i,
    {
        if !contains_name(available, &required[i]) {
            return Some(i);
        }
        i = i + 1;
    }
    None
}

/// The number of device features of Vulkan 1.0 (`VkPhysicalDeviceFeatures`).
pub const N_FEATURES: usize = 55;

/// The Vulkan name of the device feature at position `i` of
/// `VkPhysicalDeviceFeatures`.
pub open spec fn feature_name_spec(i: usize) -> &'static str {
    match i {
        0 => "robustBufferAccess",
        1 => "fullDrawIndexUint32",
        2 => "imageCubeArray",
        3 => "independentBlend",
        4 => "geometryShader",
        5 => "tessellationShader",
        6 => "sampleRateShading",
        7 => "dualSrcBlend",
        8 => "logicOp",
        9 => "multiDrawIndirect",
        10 => "drawIndirectFirstInstance",
        11 => "depthClamp",
        12 => "depthBiasClamp",
        13 => "fillModeNonSolid",
        14 => "depthBounds",
        15 => "wideLines",
        16 => "largePoints",
        17 => "alphaToOne",
        18 => "multiViewport",
        19 => "samplerAnisotropy",
        20 => "textureCompressionETC2",
        21 => "textureCompressionASTC_LDR",
        22 => "textureCompressionBC",
        23 => "occlusionQueryPrecise",
        24 => "pipelineStatisticsQuery",
        25 => "vertexPipelineStoresAndAtomics",
        26 => "fragmentStoresAndAtomics",
        27 => "shaderTessellationAndGeometryPointSize",
        28 => "shaderImageGatherExtended",
        29 => "shaderStorageImageExtendedFormats",
        30 => "shaderStorageImageMultisample",
        31 => "shaderStorageImageReadWithoutFormat",
        32 => "shaderStorageImageWriteWithoutFormat",
        33 => "shaderUniformBufferArrayDynamicIndexing",
        34 => "shaderSampledImageArrayDynamicIndexing",
        35 => "shaderStorageBufferArrayDynamicIndexing",
        36 => "shaderStorageImageArrayDynamicIndexing",
        37 => "shaderClipDistance",
        38 => "shaderCullDistance",
        39 => "shaderFloat64",
        40 => "shaderInt64",
        41 => "shaderInt16",
        42 => "shaderResourceResidency",
        43 => "shaderResourceMinLod",
        44 => "sparseBinding",
        45 => "sparseResidencyBuffer",
        46 => "sparseResidencyImage2D",
        47 => "sparseResidencyImage3D",
        48 => "sparseResidency2Samples",
        49 => "sparseResidency4Samples",
        50 => "sparseResidency8Samples",
        51 => "sparseResidency16Samples",
        52 => "sparseResidencyAliased",
        53 => "variableMultisampleRate",
        54 => "inheritedQueries",
        _ => "unknown",
    }
}

/// The Vulkan name of the device feature at position `i` of
/// `VkPhysicalDeviceFeatures`.
pub fn feature_name(i: usize) -> (r: &'static str)
    ensures r == feature_name_spec(i),
{
    match i {
        0 => "robustBufferAccess",
        1 => "fullDrawIndexUint32",
        2 => "imageCubeArray",
        3 => "independentBlend",
        4 => "geometryShader",
        5 => "tessellationShader",
        6 => "sampleRateShading",
        7 => "dualSrcBlend",
        8 => "logicOp",
        9 => "multiDrawIndirect",
        10 => "drawIndirectFirstInstance",
        11 => "depthClamp",
        12 => "depthBiasClamp",
        13 => "fillModeNonSolid",
        14 => "depthBounds",
        15 => "wideLines",
        16 => "largePoints",
        17 => "alphaToOne",
        18 => "multiViewport",
        19 => "samplerAnisotropy",
        20 => "textureCompressionETC2",
        21 => "textureCompressionASTC_LDR",
        22 => "textureCompressionBC",
        23 => "occlusionQueryPrecise",
        24 => "pipelineStatisticsQuery",
        25 => "vertexPipelineStoresAndAtomics",
        26 => "fragmentStoresAndAtomics",
        27 => "shaderTessellationAndGeometryPointSize",
        28 => "shaderImageGatherExtended",
        29 => "shaderStorageImageExtendedFormats",
        30 => "shaderStorageImageMultisample",
        31 => "shaderStorageImageReadWithoutFormat",
        32 => "shaderStorageImageWriteWithoutFormat",
        33 => "shaderUniformBufferArrayDynamicIndexing",
        34 => "shaderSampledImageArrayDynamicIndexing",
        35 => "shaderStorageBufferArrayDynamicIndexing",
        36 => "shaderStorageImageArrayDynamicIndexing",
        37 => "shaderClipDistance",
        38 => "shaderCullDistance",
        39 => "shaderFloat64",
        40 => "shaderInt64",
        41 => "shaderInt16",
        42 => "shaderResourceResidency",
        43 => "shaderResourceMinLod",
        44 => "sparseBinding",
        45 => "sparseResidencyBuffer",
        46 => "sparseResidencyImage2D",
        47 => "sparseResidencyImage3D",
        48 => "sparseResidency2Samples",
        49 => "sparseResidency4Samples",
        50 => "sparseResidency8Samples",
        51 => "sparseResidency16Samples",
        52 => "sparseResidencyAliased",
        53 => "variableMultisampleRate",
        54 => "inheritedQueries",
        _ => "unknown",
    }
}

/// Whether the feature at position `i` is requested but not available
/// (features past the end of `available` are not available).
pub open spec fn feature_missing(requested: Seq<bool>, available: Seq<bool>, i: int) -> bool {
    requested[i] && !(i < available.len() && available[i])
}

/// Whether every requested feature is available.
pub open spec fn all_features(requested: Seq<bool>, available: Seq<bool>) -> bool {
    forall|i: int| 0 <= i < requested.len() ==> !#[trigger] feature_missing(requested, available, i)
}

/// Whether `k` is the position of the first requested feature that is not
/// available.
pub open spec fn first_missing_feature(requested: Seq<bool>, available: Seq<bool>, k: int) -> bool {
    &&& 0 <= k < requested.len()
    &&& feature_missing(requested, available, k)
    &&& forall|i: int| 0 <= i < k ==> !#[trigger] feature_missing(requested, available, i)
}

/// The position of the first requested feature that is not available, if any.
pub fn find_missing_feature(requested: &Vec<bool>, available: &Vec<bool>) -> (r: Option<usize>)
    ensures
        r is None <==> all_features(requested@, available@),
        r matches Some(k) ==> first_missing_feature(requested@, available@, k as int),
{
    let mut i: usize = 0;
    while i < requested.len()
        invariant
            i <= requested.len(),
            forall|k: int| 0 <= k < i ==> !#[trigger] feature_missing(requested@, available@, k),
        decreases requested.len() - i,
    {
        if requested[i] && !(i < available.len() && available[i]) {
            assert(feature_missing(requested@, available@, i as int));
            return Some(i);
        }
        i = i + 1;
    }
    None
}

/// Checks that the device `index` (called `name`) offers every required
/// device extension, layer and feature, given the ones it makes available.
/// The first missing extension is reported, or, where none is missing, the
/// first missing layer, or else the first missing feature.
pub fn supports(
    index: usize,
    name: &String,
    required_extensions: &Vec<String>,
    available_extensions: &Vec<String>,
    required_layers: &Vec<String>,
    available_layers: &Vec<String>,
    requested_features: &Vec<bool>,
    available_features: &Vec<bool>,
) -> (r: Result<(), DeviceError>)
    ensures
        r is Ok <==> all_present(required_extensions@, available_extensions@)
            && all_present(required_layers@, available_layers@)
            && all_features(requested_features@, available_features@),
        !all_present(required_extensions@, available_extensions@) ==> (
            r matches Err(DeviceError::UnsupportedDeviceExtension { index: i, name: n, extension: e })
            && i == index && n@ == name@
            && exists|k: int| #[trigger] first_missing(required_extensions@, available_extensions@, k)
                && e@ == required_extensions@[k]@),
        all_present(required_extensions@, available_extensions@)
            && !all_present(required_layers@, available_layers@) ==> (
            r matches Err(DeviceError::UnsupportedDeviceLayer { index: i, name: n, layer: l })
            && i == index && n@ == name@
            && exists|k: int| #[trigger] first_missing(required_layers@, available_layers@, k)
                && l@ == required_layers@[k]@),
        all_present(required_extensions@, available_extensions@)
            && all_present(required_layers@, available_layers@)
            && !all_features(requested_features@, available_features@) ==> (
            r matches Err(DeviceError::UnsupportedFeature { index: i, name: n, feature: f })
            && i == index && n@ == name@
            && exists|k: int| #[trigger] first_missing_feature(requested_features@, available_features@, k)
                && f == feature_name_spec(k as usize)),
{
    match find_missing(required_extensions, available_extensions) {
        Some(k) => {
            return Err(DeviceError::UnsupportedDeviceExtension {
                index,
                name: name.clone(),
                extension: required_extensions[k].clone(),
            });
        },
        None => {},
    }
    match find_missing(required_layers, available_layers) {
        Some(k) => {
            return Err(DeviceError::UnsupportedDeviceLayer {
                index,
                name: name.clone(),
                layer: required_layers[k].clone(),
            });
        },
        None => {},
    }
    match find_missing_feature(requested_features, available_features) {
        Some(k) => Err(DeviceError::UnsupportedFeature { index, name: name.clone(), feature: feature_name(k) }),
        None => Ok(()),
    }
}

/// What is known of one physical device when choosing among them.
#[derive(Clone, Copy, Debug, PartialEq, Eq, Structural)]
pub struct DeviceCandidate {
    /// Whether the device offers everything the application needs.
    pub supported: bool,
    /// The kind of the device.
    pub kind: DeviceKind,
}

/// Whether `i` is the device to pick: a supported device of the highest
/// score, and the first one of that score.
pub open spec fn is_best_device(devices: Seq<DeviceCandidate>, i: int) -> bool {
    &&& 0 <= i < devices.len()
    &&& devices[i].supported
    &&& forall|j: int| 0 <= j < devices.len() && devices[j].supported
            ==> #[trigger] devices[j].kind.score_spec() <= devices[i].kind.score_spec()
    &&& forall|j: int| 0 <= j < i && devices[j].supported
            ==> #[trigger] devices[j].kind.score_spec() < devices[i].kind.score_spec()
}

/// Whether some device is supported.
pub open spec fn any_supported(devices: Seq<DeviceCandidate>) -> bool {
    exists|j: int| 0 <= j < devices.len() && #[trigger] devices[j].supported
}

/// Picks, among the supported devices, the one of the highest score (the
/// more discrete, the better); of equal scores the first wins. Fails where
/// no device is supported.
pub fn select_device(devices: &Vec<DeviceCandidate>) -> (r: Result<usize, DeviceError>)
    ensures
        r is Ok <==> any_supported(devices@),
        r matches Ok(i) ==> is_best_device(devices@, i as int),
        r matches Ok(i) ==> {
            &&& has_supported(devices@, DeviceKind::Discrete) ==> devices@[i as int].kind == DeviceKind::Discrete
            &&& has_supported(devices@, DeviceKind::Integrated) ==> devices@[i as int].kind == DeviceKind::Discrete
                || devices@[i as int].kind == DeviceKind::Integrated
            &&& has_supported(devices@, DeviceKind::Virtual) ==> devices@[i as int].kind != DeviceKind::Cpu
                && devices@[i as int].kind != DeviceKind::Other
            &&& has_supported(devices@, DeviceKind::Cpu) ==> devices@[i as int].kind != DeviceKind::Other
        },
        r is Err ==> r == Err::<usize, DeviceError>(DeviceError::NoSupportedPhysicalDevices),
{
    let mut best: Option<(usize, u32)> = None;
    let mut i: usize = 0;
    while i < devices.len()
        invariant
            i <= devices.len(),
            best is None <==> forall|j: int| 0 <= j < i ==> !(#[trigger] devices@[j]).supported,
            best matches Some((b, s)) ==> {
                &&& b < i
                &&& s == devices@[b as int].kind.score_spec()
                &&& devices@[b as int].supported
                &&& forall|j: int| 0 <= j < i && devices@[j].supported
                        ==> #[trigger] devices@[j].kind.score_spec() <= s
                &&& forall|j: int| 0 <= j < b && devices@[j].supported
                        ==> #[trigger] devices@[j].kind.score_spec() < s
            },
        decreases devices.len() - i,
    {
        let d = devices[i];
        if d.supported {
            let score = d.kind.score();
            match best {
                None => {
                    best = Some((i, score));
                },
                Some((_, s)) => {
                    if score > s {
                        best = Some((i, score));
                    }
                },
            }
        }
        i = i + 1;
    }
    match best {
        Some((b, _)) => {
            proof { lemma_best_device_kind(devices@, b as int); }
            Ok(b)
        },
        None => {
            proof {
                assert forall|j: int| 0 <= j < devices@.len() implies !(#[trigger] devices@[j]).supported by {}
            }
            Err(DeviceError::NoSupportedPhysicalDevices)
        },
    }
}

/// The index of the device to use, where `count` devices exist; fails where
/// there is no device of that index.
pub fn find_device(index: usize, count: usize) -> (r: Result<usize, DeviceError>)
    ensures
        index < count ==> r == Ok::<usize, DeviceError>(index),
        index >= count ==> r == Err::<usize, DeviceError>(DeviceError::PhysicalDeviceNotFound { index }),
{
    if index < count {
        Ok(index)
    } else {
        Err(DeviceError::PhysicalDeviceNotFound { index })
    }
}

/// Picking a device is well defined: the device picked is the only one that
/// fits the description.
pub proof fn lemma_best_device_unique(devices: Seq<DeviceCandidate>, i: int, j: int)
    requires
        is_best_device(devices, i),
        is_best_device(devices, j),
    ensures
        i == j,
{
    if i < j {
        assert(devices[i].kind.score_spec() < devices[j].kind.score_spec());
        assert(devices[i].kind.score_spec() <= devices[j].kind.score_spec());
    } else if j < i {
        assert(devices[j].kind.score_spec() < devices[i].kind.score_spec());
    }
}


/// Some supported device is of kind `k`.
pub open spec fn has_supported(devices: Seq<DeviceCandidate>, k: DeviceKind) -> bool {
    exists|j: int| 0 <= j < devices.len() && #[trigger] devices[j].supported && devices[j].kind == k
}

/// The kinds are ranked strictly: discrete above integrated above virtual
/// above CPU above other.
pub proof fn lemma_kind_ranking()
    ensures
        DeviceKind::Discrete.score_spec() > DeviceKind::Integrated.score_spec(),
        DeviceKind::Integrated.score_spec() > DeviceKind::Virtual.score_spec(),
        DeviceKind::Virtual.score_spec() > DeviceKind::Cpu.score_spec(),
        DeviceKind::Cpu.score_spec() > DeviceKind::Other.score_spec(),
{
}

/// The device picked is supported, and it is of the most discrete kind among
/// the supported devices: a discrete GPU where one is supported, else an
/// integrated GPU where one is, else a virtual GPU, else a CPU.
pub proof fn lemma_best_device_kind(devices: Seq<DeviceCandidate>, i: int)
    requires is_best_device(devices, i),
    ensures
        devices[i].supported,
        has_supported(devices, DeviceKind::Discrete) ==> devices[i].kind == DeviceKind::Discrete,
        has_supported(devices, DeviceKind::Integrated) ==> devices[i].kind == DeviceKind::Discrete
            || devices[i].kind == DeviceKind::Integrated,
        has_supported(devices, DeviceKind::Virtual) ==> devices[i].kind == DeviceKind::Discrete
            || devices[i].kind == DeviceKind::Integrated || devices[i].kind == DeviceKind::Virtual,
        has_supported(devices, DeviceKind::Cpu) ==> devices[i].kind != DeviceKind::Other,
        forall|j: int| 0 <= j < i && #[trigger] devices[j].supported ==> devices[j].kind != devices[i].kind,
{
    if has_supported(devices, DeviceKind::Discrete) {
        let j = choose|j: int| 0 <= j < devices.len() && #[trigger] devices[j].supported && devices[j].kind == DeviceKind::Discrete;
        assert(devices[j].kind.score_spec() <= devices[i].kind.score_spec());
    }
    if has_supported(devices, DeviceKind::Integrated) {
        let j = choose|j: int| 0 <= j < devices.len() && #[trigger] devices[j].supported && devices[j].kind == DeviceKind::Integrated;
        assert(devices[j].kind.score_spec() <= devices[i].kind.score_spec());
    }
    if has_supported(devices, DeviceKind::Virtual) {
        let j = choose|j: int| 0 <= j < devices.len() && #[trigger] devices[j].supported && devices[j].kind == DeviceKind::Virtual;
        assert(devices[j].kind.score_spec() <= devices[i].kind.score_spec());
    }
    if has_supported(devices, DeviceKind::Cpu) {
        let j = choose|j: int| 0 <= j < devices.len() && #[trigger] devices[j].supported && devices[j].kind == DeviceKind::Cpu;
        assert(devices[j].kind.score_spec() <= devices[i].kind.score_spec());
    }
}

} // verus!
