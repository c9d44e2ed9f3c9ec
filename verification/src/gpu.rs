//! Physical devices, and the rule that picks one of them.
//!
//! A device is compatible when its category is allowed, it offers every
//! required extension, and the caller's own checker, if there is one,
//! accepts it. Among the compatible devices a discrete GPU is preferred to
//! an integrated one, and an integrated one to anything else; within one
//! tier the device enumerated last wins.
use std::rc::Rc;
use vstd::prelude::*;

verus! {

/// The category a driver reports for a physical device.
#[derive(Clone, Copy, Debug, PartialEq, Eq, Structural)]
pub enum PhysicalDeviceType {
    Other,
    IntegratedGpu,
    DiscreteGpu,
    VirtualGpu,
    Cpu,
}

impl PhysicalDeviceType {
    /// The preference tier of a category: 2 for discrete GPUs, 1 for
    /// integrated ones, 0 for every other category.
    pub open spec fn tier(self) -> int {
        match self {
            PhysicalDeviceType::DiscreteGpu => 2,
            PhysicalDeviceType::IntegratedGpu => 1,
            _ => 0,
        }
    }
}

/// The names that a list of strings holds, in order.
pub open spec fn names(strings: Seq<String>) -> Seq<Seq<char>> {
    Seq::new(strings.len(), |i: int| strings[i]@)
}

/// `ash::extensions::khr::Swapchain::name`, as an owned string: the name
/// under which Vulkan registers the swapchain extension. Believed, not proved.
#[verifier::external_body]
fn swapchain_extension_name() -> (name: String)
    ensures
        name@ == "VK_KHR_swapchain"@,
{
    ash::extensions::khr::Swapchain::name().to_string_lossy().into_owned()
}

/// The device extensions without which a device is of no use to this crate:
/// the swapchain extension alone.
pub fn required_device_extensions() -> (required: Vec<String>)
    ensures
        names(required@) == seq!["VK_KHR_swapchain"@],
{
    let mut required: Vec<String> = Vec::new();
    required.push(swapchain_extension_name());
    assert(names(required@) =~= seq!["VK_KHR_swapchain"@]);
    required
}

/// A GPU as the driver described it when it was enumerated.
#[derive(Clone, Debug)]
pub struct PhysicalDevice {
    physical_device: u64,
    device_type: PhysicalDeviceType,
    name: String,
    extensions: Option<Vec<String>>,
}

/// What a [`PhysicalDevice`] holds.
pub struct PhysicalDeviceView {
    /// The driver's handle for the device.
    pub handle: u64,
    /// The category the driver reported.
    pub device_type: PhysicalDeviceType,
    /// The device's name.
    pub name: Seq<char>,
    /// The names of the extensions the device offers, or nothing where the
    /// driver failed to list them.
    pub extensions: Option<Seq<Seq<char>>>,
}

impl View for PhysicalDevice {
    type V = PhysicalDeviceView;

    closed spec fn view(&self) -> PhysicalDeviceView {
        PhysicalDeviceView {
            handle: self.physical_device,
            device_type: self.device_type,
            name: self.name@,
            extensions: match self.extensions {
                Some(extensions) => Some(names(extensions@)),
                None => None,
            },
        }
    }
}

/// A caller's own say on whether a device will do.
pub trait GpuCompatibilityChecker {
    /// The checker's verdict on a device. A checker answers for a device the
    /// same way each time it is asked.
    spec fn accepts(&self, physical_device: &PhysicalDevice) -> bool;

    /// Whether the device will do.
    fn is_compatible(&self, physical_device: &PhysicalDevice) -> (verdict: bool)
        ensures
            verdict == self.accepts(physical_device),
    ;
}

/// What a device must satisfy to be selected.
pub struct GpuSelectionParameters {
    allowed_types: Vec<PhysicalDeviceType>,
    required_extension_support: Vec<String>,
    user_compatibility_checker: Option<Box<dyn GpuCompatibilityChecker>>,
}

/// Whether a device that offers `available` offers every name in `required`.
/// A device whose extensions could not be listed offers nothing, not even
/// an empty set.
pub open spec fn offers_all(available: Option<Seq<Seq<char>>>, required: Seq<Seq<char>>) -> bool {
    match available {
        Some(offered) => forall|i: int|
            0 <= i < required.len() ==> offered.contains(#[trigger] required[i]),
        None => false,
    }
}

impl GpuSelectionParameters {
    /// The categories a device may have.
    pub closed spec fn allowed_types(&self) -> Seq<PhysicalDeviceType> {
        self.allowed_types@
    }

    /// The names of the extensions a device must offer.
    pub closed spec fn required_extension_support(&self) -> Seq<Seq<char>> {
        names(self.required_extension_support@)
    }

    /// The caller's own checker, if any.
    pub closed spec fn user_compatibility_checker(&self) -> Option<
        Box<dyn GpuCompatibilityChecker>,
    > {
        self.user_compatibility_checker
    }

    /// The checks every device must pass, whatever the caller's checker says:
    /// its category is allowed and it offers every required extension.
    pub open spec fn passes_filters(&self, physical_device: &PhysicalDevice) -> bool {
        &&& self.allowed_types().contains(physical_device@.device_type)
        &&& offers_all(physical_device@.extensions, self.required_extension_support())
    }

    /// Whether a device may be selected: it passes the filters and the
    /// caller's checker, where there is one, accepts it.
    pub open spec fn compatible(&self, physical_device: &PhysicalDevice) -> bool {
        &&& self.passes_filters(physical_device)
        &&& match self.user_compatibility_checker() {
            Some(checker) => checker.accepts(physical_device),
            None => true,
        }
    }

    /// Parameters that allow `allowed_types`, require `required_extension_support`
    /// and hear `user_compatibility_checker` last.
    pub fn new(
        allowed_types: Vec<PhysicalDeviceType>,
        required_extension_support: Vec<String>,
        user_compatibility_checker: Option<Box<dyn GpuCompatibilityChecker>>,
    ) -> (parameters: Self)
        ensures
            parameters.allowed_types() == allowed_types@,
            parameters.required_extension_support() == names(required_extension_support@),
            parameters.user_compatibility_checker() == user_compatibility_checker,
    {
        Self { allowed_types, required_extension_support, user_compatibility_checker }
    }

    /// Whether a device of this category may be selected at all.
    pub fn allows(&self, device_type: PhysicalDeviceType) -> (allowed: bool)
        ensures
            allowed == self.allowed_types().contains(device_type),
    {
        contains_type(&self.allowed_types, device_type)
    }

    /// Whether `physical_device` may be selected.
    ///
    /// The caller's checker is heard last, and only for a device that has
    /// passed the filters.
    pub fn is_compatible(&self, physical_device: &PhysicalDevice) -> (compatible: bool)
        ensures
            compatible == self.compatible(physical_device),
    {
        if !self.allows(physical_device.device_type) {
            false
        } else {
            match &physical_device.extensions {
                Some(extensions) => {
                    if !contains_all(extensions, &self.required_extension_support) {
                        return false;
                    }
                    match &self.user_compatibility_checker {
                        Some(checker) => checker.is_compatible(physical_device),
                        None => true,
                    }
                },
                None => false,
            }
        }
    }
}

impl Default for GpuSelectionParameters {
    /// Every category is allowed, the swapchain extension is required, and
    /// there is no checker.
    fn default() -> (parameters: Self)
        ensures
            parameters.allowed_types() == seq![
                PhysicalDeviceType::DiscreteGpu,
                PhysicalDeviceType::IntegratedGpu,
                PhysicalDeviceType::Cpu,
                PhysicalDeviceType::VirtualGpu,
                PhysicalDeviceType::Other,
            ],
            parameters.required_extension_support() == seq!["VK_KHR_swapchain"@],
            parameters.user_compatibility_checker() is None,
    {
        let mut allowed_types: Vec<PhysicalDeviceType> = Vec::new();
        allowed_types.push(PhysicalDeviceType::DiscreteGpu);
        allowed_types.push(PhysicalDeviceType::IntegratedGpu);
        allowed_types.push(PhysicalDeviceType::Cpu);
        allowed_types.push(PhysicalDeviceType::VirtualGpu);
        allowed_types.push(PhysicalDeviceType::Other);
        assert(allowed_types@ =~= seq![
            PhysicalDeviceType::DiscreteGpu,
            PhysicalDeviceType::IntegratedGpu,
            PhysicalDeviceType::Cpu,
            PhysicalDeviceType::VirtualGpu,
            PhysicalDeviceType::Other,
        ]);
        Self {
            allowed_types,
            required_extension_support: required_device_extensions(),
            user_compatibility_checker: None,
        }
    }
}

/// Whether the device at `i` is at least as good a pick as the one at `j`:
/// it stands in a higher tier, or in the same tier and no earlier.
pub open spec fn outranks(devices: Seq<PhysicalDevice>, i: int, j: int) -> bool {
    let mine = devices[i]@.device_type.tier();
    let theirs = devices[j]@.device_type.tier();
    theirs < mine || (theirs == mine && j <= i)
}

/// Whether the device at `i` is the one to select: it is compatible, and it
/// outranks every compatible device.
pub open spec fn is_selection(
    devices: Seq<PhysicalDevice>,
    parameters: &GpuSelectionParameters,
    i: int,
) -> bool {
    &&& 0 <= i < devices.len()
    &&& parameters.compatible(&devices[i])
    &&& forall|j: int|
        0 <= j < devices.len() && parameters.compatible(&devices[j]) ==> #[trigger] outranks(
            devices,
            i,
            j,
        )
}

/// The device to select among `devices`, in the order the driver enumerated
/// them: the last compatible one of the highest tier that has any, or none
/// where no device is compatible.
pub open spec fn selected(devices: Seq<PhysicalDevice>, parameters: &GpuSelectionParameters)
    -> Option<PhysicalDevice> {
    if exists|i: int| is_selection(devices, parameters, i) {
        Some(devices[choose|i: int| is_selection(devices, parameters, i)])
    } else {
        None
    }
}

/// Whether `slot` is the last compatible device of `tier` among the first
/// `n`, or empty where there is none.
spec fn holds_last_of_tier(
    devices: Seq<PhysicalDevice>,
    parameters: &GpuSelectionParameters,
    tier: int,
    n: int,
    slot: Option<usize>,
) -> bool {
    match slot {
        Some(i) => {
            &&& i < n
            &&& in_tier(devices, parameters, tier, i as int)
            &&& forall|j: int| i < j < n ==> !in_tier(devices, parameters, tier, j)
        },
        None => forall|j: int| 0 <= j < n ==> !in_tier(devices, parameters, tier, j),
    }
}

/// Whether the device at `j` is compatible and stands in `tier`.
spec fn in_tier(
    devices: Seq<PhysicalDevice>,
    parameters: &GpuSelectionParameters,
    tier: int,
    j: int,
) -> bool {
    parameters.compatible(&devices[j]) && devices[j]@.device_type.tier() == tier
}

impl PhysicalDevice {
    /// Picks the device to use.
    ///
    /// `devices` is what enumerating the instance's physical devices gave, in
    /// the driver's order, or nothing where enumerating failed. No device is
    /// selected then, nor where no device is compatible. Otherwise the pick is
    /// the last compatible device of the best tier: a device that fails a
    /// filter or that the caller's checker turns down is never returned.
    pub fn select(
        devices: Option<Vec<PhysicalDevice>>,
        selection_parameters: GpuSelectionParameters,
    ) -> (chosen: Option<Rc<PhysicalDevice>>)
        ensures
            match devices {
                Some(enumerated) => match chosen {
                    Some(device) => selected(enumerated@, &selection_parameters) == Some(*device),
                    None => selected(enumerated@, &selection_parameters) is None,
                },
                None => chosen is None,
            },
            chosen matches Some(device) ==> selection_parameters.compatible(&*device),
            chosen is Some <==> (devices matches Some(enumerated) && exists|i: int|
                0 <= i < enumerated.len() && selection_parameters.compatible(&enumerated[i])),
    {
        let mut devices = match devices {
            Some(enumerated) => enumerated,
            None => { return None; },
        };
        let ghost enumerated = devices@;
        let mut discrete_device: Option<usize> = None;
        let mut integrated_device: Option<usize> = None;
        let mut supported_device: Option<usize> = None;
        let mut next: usize = 0;
        while next < devices.len()
            invariant
                devices@ == enumerated,
                next <= devices.len(),
                holds_last_of_tier(enumerated, &selection_parameters, 2, next as int, discrete_device),
                holds_last_of_tier(
                    enumerated,
                    &selection_parameters,
                    1,
                    next as int,
                    integrated_device,
                ),
                holds_last_of_tier(enumerated, &selection_parameters, 0, next as int, supported_device),
            decreases devices.len() - next,
        {
            let physical_device = &devices[next];
            if selection_parameters.is_compatible(physical_device) {
                match physical_device.device_type {
                    PhysicalDeviceType::DiscreteGpu => {
                        discrete_device = Some(next);
                    },
                    PhysicalDeviceType::IntegratedGpu => {
                        integrated_device = Some(next);
                    },
                    _ => {
                        supported_device = Some(next);
                    },
                }
            }
            next += 1;
        }
        let best = if discrete_device.is_some() {
            discrete_device
        } else if integrated_device.is_some() {
            integrated_device
        } else {
            supported_device
        };
        match best {
            Some(i) => {
                proof {
                    assert forall|j: int|
                        0 <= j < enumerated.len() && selection_parameters.compatible(
                            &enumerated[j],
                        ) implies #[trigger] outranks(enumerated, i as int, j) by {
                        let tier = enumerated[j]@.device_type.tier();
                        assert(in_tier(enumerated, &selection_parameters, tier, j));
                    }
                    assert(is_selection(enumerated, &selection_parameters, i as int));
                    selection_is_unique(
                        enumerated,
                        &selection_parameters,
                        i as int,
                        choose|k: int| is_selection(enumerated, &selection_parameters, k),
                    );
                }
                Some(Rc::new(devices.remove(i)))
            },
            None => {
                proof {
                    assert forall|j: int| 0 <= j < enumerated.len() implies !selection_parameters.compatible(
                        &enumerated[j],
                    ) by {
                        let tier = enumerated[j]@.device_type.tier();
                        assert(!in_tier(enumerated, &selection_parameters, tier, j));
                    }
                }
                None
            },
        }
    }

    /// A device from what the driver said of it: its handle, its category,
    /// its name, and the names of the extensions it offers, or nothing where
    /// the driver failed to list them.
    pub fn wrap(
        physical_device: u64,
        device_type: PhysicalDeviceType,
        name: String,
        extensions: Option<Vec<String>>,
    ) -> (device: PhysicalDevice)
        ensures
            device@.handle == physical_device,
            device@.device_type == device_type,
            device@.name == name@,
            device@.extensions == match extensions {
                Some(offered) => Some(names(offered@)),
                None => None,
            },
    {
        Self { physical_device, device_type, name, extensions }
    }

    /// The category of the device.
    pub fn device_type(&self) -> (device_type: PhysicalDeviceType)
        ensures
            device_type == self@.device_type,
    {
        self.device_type
    }

    /// The name of the device.
    pub fn name(&self) -> (name: String)
        ensures
            name@ == self@.name,
    {
        self.name.clone()
    }

    /// The driver's handle for the device.
    pub fn handle(&self) -> (handle: u64)
        ensures
            handle == self@.handle,
    {
        self.physical_device
    }
}

/// At most one device is the one to select.
pub proof fn selection_is_unique(
    devices: Seq<PhysicalDevice>,
    parameters: &GpuSelectionParameters,
    i: int,
    j: int,
)
    requires
        is_selection(devices, parameters, i),
        is_selection(devices, parameters, j),
    ensures
        i == j,
{
    assert(outranks(devices, i, j));
    assert(outranks(devices, j, i));
}

/// Whatever is selected is one of the enumerated devices and is compatible;
/// something is selected as soon as one device is compatible.
pub proof fn selected_is_compatible(devices: Seq<PhysicalDevice>, parameters: &GpuSelectionParameters)
    ensures
        match selected(devices, parameters) {
            Some(device) => devices.contains(device) && parameters.compatible(&device),
            None => forall|i: int| 0 <= i < devices.len() ==> !parameters.compatible(&devices[i]),
        },
{
    if exists|i: int| is_selection(devices, parameters, i) {
        let i = choose|i: int| is_selection(devices, parameters, i);
        assert(devices[i] == selected(devices, parameters)->0);
    } else {
        assert forall|i: int| 0 <= i < devices.len() implies !parameters.compatible(&devices[i]) by {
            if parameters.compatible(&devices[i]) {
                best_candidate_exists(devices, parameters, devices.len() as int, i);
            }
        }
    }
}

/// Whether a device that offers `available` lacks at least one name of
/// `required`. A device whose extensions could not be listed lacks each of
/// them.
pub open spec fn lacks_one(available: Option<Seq<Seq<char>>>, required: Seq<Seq<char>>) -> bool {
    exists|k: int|
        0 <= k < required.len() && match available {
            Some(offered) => !offered.contains(#[trigger] required[k]),
            None => true,
        }
}

/// Where no enumerated device has an allowed category, nothing is selected.
pub proof fn no_allowed_category_selects_nothing(
    devices: Seq<PhysicalDevice>,
    parameters: &GpuSelectionParameters,
)
    requires
        forall|i: int|
            0 <= i < devices.len() ==> !parameters.allowed_types().contains(
                (#[trigger] devices[i])@.device_type,
            ),
    ensures
        selected(devices, parameters) is None,
{
    assert forall|i: int| !is_selection(devices, parameters, i) by {
        if 0 <= i < devices.len() {
            assert(!parameters.passes_filters(&devices[i]));
        }
    }
}

/// Where every enumerated device lacks at least one required extension,
/// nothing is selected.
pub proof fn missing_extension_selects_nothing(
    devices: Seq<PhysicalDevice>,
    parameters: &GpuSelectionParameters,
)
    requires
        forall|i: int|
            0 <= i < devices.len() ==> lacks_one(
                (#[trigger] devices[i])@.extensions,
                parameters.required_extension_support(),
            ),
    ensures
        selected(devices, parameters) is None,
{
    assert forall|i: int| !is_selection(devices, parameters, i) by {
        if 0 <= i < devices.len() {
            assert(lacks_one(devices[i]@.extensions, parameters.required_extension_support()));
            assert(!parameters.passes_filters(&devices[i]));
        }
    }
}

/// The last compatible discrete GPU is selected: of two or more compatible
/// discrete GPUs the one enumerated last wins, whatever else is compatible.
pub proof fn last_discrete_device_is_selected(
    devices: Seq<PhysicalDevice>,
    parameters: &GpuSelectionParameters,
    last: int,
)
    requires
        0 <= last < devices.len(),
        parameters.compatible(&devices[last]),
        devices[last]@.device_type == PhysicalDeviceType::DiscreteGpu,
        forall|j: int|
            last < j < devices.len() && parameters.compatible(&devices[j]) ==> (
            #[trigger] devices[j])@.device_type != PhysicalDeviceType::DiscreteGpu,
    ensures
        selected(devices, parameters) == Some(devices[last]),
{
    assert forall|j: int|
        0 <= j < devices.len() && parameters.compatible(&devices[j]) implies #[trigger] outranks(
        devices,
        last,
        j,
    ) by {
        if last < j {
            assert(devices[j]@.device_type != PhysicalDeviceType::DiscreteGpu);
        }
    }
    assert(is_selection(devices, parameters, last));
    selection_is_unique(
        devices,
        parameters,
        last,
        choose|i: int| is_selection(devices, parameters, i),
    );
}

/// Where exactly one discrete GPU is compatible, it is selected, however
/// many integrated or other devices are compatible beside it.
pub proof fn lone_discrete_device_is_selected(
    devices: Seq<PhysicalDevice>,
    parameters: &GpuSelectionParameters,
    discrete: int,
)
    requires
        0 <= discrete < devices.len(),
        parameters.compatible(&devices[discrete]),
        devices[discrete]@.device_type == PhysicalDeviceType::DiscreteGpu,
        forall|j: int|
            0 <= j < devices.len() && j != discrete && parameters.compatible(&devices[j]) ==> (
            #[trigger] devices[j])@.device_type != PhysicalDeviceType::DiscreteGpu,
    ensures
        selected(devices, parameters) == Some(devices[discrete]),
{
    last_discrete_device_is_selected(devices, parameters, discrete);
}

/// A checker that turns down every enumerated device leaves nothing to
/// select, whatever passes the filters.
pub proof fn rejecting_checker_selects_nothing(
    devices: Seq<PhysicalDevice>,
    parameters: &GpuSelectionParameters,
)
    requires
        parameters.user_compatibility_checker() matches Some(checker) && forall|i: int|
            0 <= i < devices.len() ==> !checker.accepts(&#[trigger] devices[i]),
    ensures
        selected(devices, parameters) is None,
{
    assert forall|i: int| !is_selection(devices, parameters, i) by {
        if 0 <= i < devices.len() {
            assert(!parameters.compatible(&devices[i]));
        }
    }
}

/// Whether the device at `i` is the best among the first `n`: it is one of
/// them, it is compatible, and it outranks every compatible one of them.
spec fn is_best_of_first(
    devices: Seq<PhysicalDevice>,
    parameters: &GpuSelectionParameters,
    n: int,
    i: int,
) -> bool {
    &&& 0 <= i < n
    &&& parameters.compatible(&devices[i])
    &&& forall|j: int|
        0 <= j < n && parameters.compatible(&devices[j]) ==> #[trigger] outranks(devices, i, j)
}

/// Among the first `n` devices, if the one at `witness` is compatible, then
/// one of them is the best.
proof fn best_candidate_exists(
    devices: Seq<PhysicalDevice>,
    parameters: &GpuSelectionParameters,
    n: int,
    witness: int,
)
    requires
        0 <= witness < n <= devices.len(),
        parameters.compatible(&devices[witness]),
    ensures
        exists|i: int| is_best_of_first(devices, parameters, n, i),
        n == devices.len() ==> exists|i: int| is_selection(devices, parameters, i),
    decreases n,
{
    let last = n - 1;
    let before = if witness < last {
        witness
    } else {
        choose|k: int| 0 <= k < last && parameters.compatible(&devices[k])
    };
    let best: int = if 0 <= before < last && parameters.compatible(&devices[before]) {
        best_candidate_exists(devices, parameters, last, before);
        let earlier = choose|i: int| is_best_of_first(devices, parameters, last, i);
        if parameters.compatible(&devices[last]) && outranks(devices, last, earlier) {
            assert forall|j: int|
                0 <= j < n && parameters.compatible(&devices[j]) implies #[trigger] outranks(
                devices,
                last,
                j,
            ) by {
                if j < last {
                    assert(outranks(devices, earlier, j));
                }
            }
            last
        } else {
            earlier
        }
    } else {
        last
    };
    assert(is_best_of_first(devices, parameters, n, best));
    if n == devices.len() {
        assert(is_selection(devices, parameters, best));
    }
}

/// Whether `types` holds `device_type`.
fn contains_type(types: &Vec<PhysicalDeviceType>, device_type: PhysicalDeviceType) -> (found: bool)
    ensures
        found == types@.contains(device_type),
{
    let mut i: usize = 0;
    while i < types.len()
        invariant
            i <= types.len(),
            forall|j: int| 0 <= j < i ==> types@[j] != device_type,
        decreases types.len() - i,
    {
        if types[i] == device_type {
            return true;
        }
        i += 1;
    }
    false
}

/// Whether `offered` holds a string that reads `name`.
fn contains_name(offered: &Vec<String>, name: &String) -> (found: bool)
    ensures
        found == names(offered@).contains(name@),
{
    let mut i: usize = 0;
    while i < offered.len()
        invariant
            i <= offered.len(),
            forall|j: int| 0 <= j < i ==> names(offered@)[j] != name@,
        decreases offered.len() - i,
    {
        if offered[i] == *name {
            assert(names(offered@)[i as int] == name@);
            return true;
        }
        i += 1;
    }
    false
}

/// Whether `offered` holds every name in `required`.
fn contains_all(offered: &Vec<String>, required: &Vec<String>) -> (all: bool)
    ensures
        all == offers_all(Some(names(offered@)), names(required@)),
{
    let mut i: usize = 0;
    while i < required.len()
        invariant
            i <= required.len(),
            forall|j: int| 0 <= j < i ==> names(offered@).contains(#[trigger] names(required@)[j]),
        decreases required.len() - i,
    {
        if !contains_name(offered, &required[i]) {
            assert(!names(offered@).contains(names(required@)[i as int]));
            return false;
        }
        i += 1;
    }
    true
}

} // verus!
