use vstd::prelude::*;
use crate::metric::MetricKind;

verus! {

/// Hardware categories that sensor resolution asks the provider for.
#[derive(Clone, Copy, Debug, PartialEq, Eq, Structural)]
pub enum HardwareCategory {
    Cpu,
    GpuNvidia,
    GpuAmd,
    GpuIntel,
}

/// A hardware item reported by the provider.
#[derive(Clone, Debug, PartialEq, Eq)]
pub struct HardwareDescriptor {
    pub identifier: String,
}

/// A temperature sensor reported by the provider under a hardware item.
#[derive(Clone, Debug, PartialEq, Eq)]
pub struct SensorDescriptor {
    pub identifier: String,
    pub name: String,
}

/// Why a sensor could not be resolved.
#[derive(Clone, Copy, Debug, PartialEq, Eq, Structural)]
pub enum ResolveError {
    /// No hardware item of the wanted categories exists.
    MissingHardware,
    /// The chosen hardware item has no temperature sensor of the wanted name.
    MissingSensor,
}

/// The categories to query for `kind`, in priority order.
pub open spec fn categories_spec(kind: MetricKind) -> Seq<HardwareCategory> {
    match kind {
        MetricKind::CpuTemp => seq![HardwareCategory::Cpu],
        MetricKind::GpuTemp => seq![
            HardwareCategory::GpuNvidia,
            HardwareCategory::GpuAmd,
            HardwareCategory::GpuIntel,
        ],
    }
}

/// The name of the temperature sensor that measures `kind`.
pub open spec fn sensor_name_spec(kind: MetricKind) -> Seq<char> {
    match kind {
        MetricKind::CpuTemp => "CPU Package"@,
        MetricKind::GpuTemp => "GPU Core"@,
    }
}

/// The identifiers of the query results, concatenated in query order.
pub open spec fn flatten_ids(found: Seq<Vec<HardwareDescriptor>>) -> Seq<Seq<char>>
    decreases found.len(),
{
    if found.len() == 0 {
        Seq::empty()
    } else {
        found[0]@.map_values(|h: HardwareDescriptor| h.identifier@) + flatten_ids(found.drop_first())
    }
}

/// Whether the first `n` sensors all have a name other than `name`.
pub open spec fn none_named(sensors: Seq<SensorDescriptor>, name: Seq<char>, n: int) -> bool {
    forall|j: int| 0 <= j < n ==> #[trigger] sensors[j].name@ != name
}

/// The categories to query for `kind`, in priority order: the first hardware
/// item found in an earlier category wins over every later one.
pub fn hardware_categories(kind: MetricKind) -> (r: Vec<HardwareCategory>)
    ensures
        r@ == categories_spec(kind),
{
    match kind {
        MetricKind::CpuTemp => vec![HardwareCategory::Cpu],
        MetricKind::GpuTemp => vec![
            HardwareCategory::GpuNvidia,
            HardwareCategory::GpuAmd,
            HardwareCategory::GpuIntel,
        ],
    }
}

/// The name of the sensor to select under the chosen hardware.
pub fn sensor_name(kind: MetricKind) -> (r: String)
    ensures
        r@ == sensor_name_spec(kind),
{
    match kind {
        MetricKind::CpuTemp => "CPU Package".to_owned(),
        MetricKind::GpuTemp => "GPU Core".to_owned(),
    }
}

proof fn lemma_skip_empty(found: Seq<Vec<HardwareDescriptor>>, i: int)
    requires
        0 <= i <= found.len(),
        forall|j: int| 0 <= j < i ==> #[trigger] found[j]@.len() == 0,
    ensures
        flatten_ids(found) == flatten_ids(found.subrange(i, found.len() as int)),
    decreases i,
{
    if i > 0 {
        let rest = found.drop_first();
        assert forall|j: int| 0 <= j < i - 1 implies #[trigger] rest[j]@.len() == 0 by {
            assert(rest[j] == found[j + 1]);
        }
        lemma_skip_empty(rest, i - 1);
        assert(rest.subrange(i - 1, rest.len() as int) =~= found.subrange(i, found.len() as int));
        assert(found[0]@.map_values(|h: HardwareDescriptor| h.identifier@) =~= Seq::<Seq<char>>::empty());
        assert(flatten_ids(found) =~= flatten_ids(rest));
    } else {
        assert(found.subrange(0, found.len() as int) =~= found);
    }
}

/// Picks the hardware item to monitor from the results of the category
/// queries, given in the order of `hardware_categories`: the first item of
/// the concatenation.
pub fn select_hardware(found: &Vec<Vec<HardwareDescriptor>>) -> (r: Result<HardwareDescriptor, ResolveError>)
    ensures
        flatten_ids(found@).len() == 0 <==> r == Err::<HardwareDescriptor, ResolveError>(ResolveError::MissingHardware),
        flatten_ids(found@).len() > 0 ==> r is Ok && r->Ok_0.identifier@ == flatten_ids(found@)[0],
        r is Err ==> r == Err::<HardwareDescriptor, ResolveError>(ResolveError::MissingHardware),
{
    let mut i: usize = 0;
    while i < found.len()
        invariant
            0 <= i <= found@.len(),
            forall|j: int| 0 <= j < i ==> #[trigger] found@[j]@.len() == 0,
        decreases found@.len() - i,
    {
        if found[i].len() > 0 {
            proof {
                lemma_skip_empty(found@, i as int);
                let tail = found@.subrange(i as int, found@.len() as int);
                assert(tail[0] == found@[i as int]);
                assert(flatten_ids(tail) == tail[0]@.map_values(|h: HardwareDescriptor| h.identifier@)
                    + flatten_ids(tail.drop_first()));
            }
            let first = &found[i][0];
            return Ok(HardwareDescriptor { identifier: first.identifier.clone() });
        }
        i = i + 1;
    }
    proof {
        lemma_skip_empty(found@, i as int);
        assert(found@.subrange(i as int, found@.len() as int).len() == 0);
    }
    Err(ResolveError::MissingHardware)
}

/// Picks the sensor named `sensor_name(kind)` from the temperature sensors
/// found under the chosen hardware: the first one of that name.
pub fn select_sensor(kind: MetricKind, sensors: &Vec<SensorDescriptor>) -> (r: Result<SensorDescriptor, ResolveError>)
    ensures
        (exists|j: int| 0 <= j < sensors@.len() && #[trigger] sensors@[j].name@ == sensor_name_spec(kind))
            <==> r is Ok,
        r is Err ==> r == Err::<SensorDescriptor, ResolveError>(ResolveError::MissingSensor),
        r is Ok ==> exists|k: int|
            0 <= k < sensors@.len()
            && #[trigger] sensors@[k].name@ == sensor_name_spec(kind)
            && none_named(sensors@, sensor_name_spec(kind), k)
            && r->Ok_0.identifier@ == sensors@[k].identifier@
            && r->Ok_0.name@ == sensors@[k].name@,
{
    let target = sensor_name(kind);
    let mut i: usize = 0;
    while i < sensors.len()
        invariant
            0 <= i <= sensors@.len(),
            target@ == sensor_name_spec(kind),
            none_named(sensors@, target@, i as int),
        decreases sensors@.len() - i,
    {
        let s = &sensors[i];
        if s.name == target {
            return Ok(SensorDescriptor { identifier: s.identifier.clone(), name: s.name.clone() });
        }
        i = i + 1;
    }
    Err(ResolveError::MissingSensor)
}

/// Vendor priority: when the first category queried reported any hardware,
/// the item chosen is its first one, whatever the later categories hold.
pub proof fn lemma_first_category_wins(found: Seq<Vec<HardwareDescriptor>>)
    requires
        found.len() > 0,
        found[0]@.len() > 0,
    ensures
        flatten_ids(found).len() > 0,
        flatten_ids(found)[0] == found[0]@[0].identifier@,
{
    let head = found[0]@.map_values(|h: HardwareDescriptor| h.identifier@);
    assert(flatten_ids(found) == head + flatten_ids(found.drop_first()));
    assert(head[0] == found[0]@[0].identifier@);
}

} // verus!
