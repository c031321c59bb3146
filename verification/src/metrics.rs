//! Service counters exported to Prometheus.

use vstd::prelude::*;
use prometheus::{Counter, Opts, Registry};

verus! {

/// A Prometheus counter (`prometheus::Counter`). Verus cannot take the
/// declaration of prometheus' generic counter type, whose parameter is bound
/// by a prometheus trait, so it is held opaquely here; the library only
/// passes it to the trusted operations below.
#[verifier::external_body]
pub struct PromCounter {
    counter: Counter,
}

/// A counter of the monitor with what the library knows of it: the fully
/// qualified name and help text of its descriptor, and how many times it has
/// been incremented. Its fields are private: only `new_counter` makes one,
/// recording the very arguments it hands prometheus, and only `counter_inc`
/// increments it. A counter starts at zero, so while the count stays below
/// 2^53 it is the value prometheus exports.
pub struct CounterHandle {
    raw: PromCounter,
    name: Ghost<Seq<char>>,
    help: Ghost<Seq<char>>,
    count: Ghost<nat>,
}

impl CounterHandle {
    /// Fully qualified name of the counter.
    pub closed spec fn name(&self) -> Seq<char> {
        self.name@
    }

    /// Help text of the counter.
    pub closed spec fn help(&self) -> Seq<char> {
        self.help@
    }

    /// Increments made through the library.
    pub closed spec fn count(&self) -> nat {
        self.count@
    }
}

#[verifier::external_type_specification]
#[verifier::external_body]
pub struct ExRegistry(Registry);

#[verifier::external_type_specification]
#[verifier::external_body]
pub struct ExPrometheusError(prometheus::Error);

/// Why the counter set could not be set up.
#[derive(Debug, Clone, Copy, PartialEq, Eq, Structural)]
pub enum MetricsError {
    /// A counter's options were rejected.
    Create,
    /// A counter could not be added to the registry.
    Register,
}

/// The monitor's counters and the registry they are exported from. The
/// registry is private and never cloned, so nothing but this library
/// registers in it.
pub struct ServiceMetrics {
    registry: Registry,
    pub udp_packets_received: CounterHandle,
    pub udp_packet_errors: CounterHandle,
    pub vibration_alarms: CounterHandle,
    pub rul_alarms: CounterHandle,
    pub clickhouse_inserts: CounterHandle,
    pub clickhouse_insert_errors: CounterHandle,
    pub mqtt_messages_sent: CounterHandle,
    pub mqtt_message_errors: CounterHandle,
}

#[verifier::external_type_specification]
#[verifier::external_body]
pub struct ExMetricFamily(prometheus::proto::MetricFamily);

/// Descriptor identity prometheus gives a metric without labels: a hash of
/// its fully qualified name (`Desc::new`, `desc.id`).
pub uninterp spec fn metric_desc_id(fq_name: Seq<char>) -> u64;

/// Label dimensions hash prometheus gives a metric without labels: a hash of
/// its help text (`Desc::new`, `desc.dim_hash`).
pub uninterp spec fn metric_dim_hash(help: Seq<char>) -> u64;

/// Descriptor identities registered in a registry (`RegistryCore::desc_ids`).
pub uninterp spec fn registry_desc_ids(r: Registry) -> Set<u64>;

/// Identities of the collectors registered in a registry
/// (`RegistryCore::collectors_by_id`).
pub uninterp spec fn registry_collector_ids(r: Registry) -> Set<u64>;

/// Dimension hash recorded per fully qualified name
/// (`RegistryCore::dim_hashes_by_name`).
pub uninterp spec fn registry_dims(r: Registry) -> Map<Seq<char>, u64>;

/// Names of the non-empty metric families that the collectors registered in
/// a registry yield, before any registry prefix is put in front of them.
pub uninterp spec fn registry_family_names(r: Registry) -> Set<Seq<char>>;

/// The namespace prefix a registry puts in front of every family name
/// (`RegistryCore::prefix`).
pub uninterp spec fn registry_prefix(r: Registry) -> Option<Seq<char>>;

/// Name of a metric family (`MetricFamily::get_name`).
pub uninterp spec fn metric_family_name(f: prometheus::proto::MetricFamily) -> Seq<char>;

/// The names of some metric families.
pub open spec fn names_of(fams: Seq<prometheus::proto::MetricFamily>) -> Set<Seq<char>> {
    fams.map_values(|f: prometheus::proto::MetricFamily| metric_family_name(f)).to_set()
}

/// Whether the families come in strictly increasing order of names.
pub open spec fn names_increase(fams: Seq<prometheus::proto::MetricFamily>) -> bool {
    forall|i: int, j: int|
        #![trigger fams[i], fams[j]]
        0 <= i < j < fams.len() ==> name_precedes(
            metric_family_name(fams[i]),
            metric_family_name(fams[j]),
        )
}

/// Whether `a` comes strictly before `b` in the order of their characters'
/// code points, which is the order of Rust's `String` (byte-wise order of
/// UTF-8 keeps the order of code points).
pub open spec fn name_precedes(a: Seq<char>, b: Seq<char>) -> bool {
    exists|k: int|
        #![trigger a.subrange(0, k)]
        0 <= k <= a.len() && k <= b.len() && a.subrange(0, k) == b.subrange(0, k) && (
        (k == a.len() && k < b.len()) || (k < a.len() && k < b.len() && a[k] < b[k]))
}

/// Whether a label-free descriptor passes the descriptor checks of
/// `RegistryCore::register`: its identity is new, and a name already seen
/// had the same help text.
pub open spec fn descriptor_fits(reg: Registry, fq: Seq<char>, help: Seq<char>) -> bool {
    &&& !registry_desc_ids(reg).contains(metric_desc_id(fq))
    &&& registry_dims(reg).contains_key(fq) ==> registry_dims(reg)[fq] == metric_dim_hash(help)
}

/// Whether a label-free, single-descriptor metric registers in `reg`.
pub open spec fn registrable(reg: Registry, fq: Seq<char>, help: Seq<char>) -> bool {
    &&& descriptor_fits(reg, fq, help)
    &&& !registry_collector_ids(reg).contains(metric_desc_id(fq))
}

/// The registry's contents after an attempt to register such a metric: the
/// name's dimension hash is recorded once the descriptor checks pass, and
/// the identity joins both sets on success.
pub open spec fn registered_after(
    before: Registry,
    after: Registry,
    fq: Seq<char>,
    help: Seq<char>,
    ok: bool,
) -> bool {
    let id = metric_desc_id(fq);
    &&& registry_dims(after) == if descriptor_fits(before, fq, help) {
        registry_dims(before).insert(fq, metric_dim_hash(help))
    } else {
        registry_dims(before)
    }
    &&& registry_desc_ids(after) == if ok {
        registry_desc_ids(before).insert(id)
    } else {
        registry_desc_ids(before)
    }
    &&& registry_collector_ids(after) == if ok {
        registry_collector_ids(before).insert(id)
    } else {
        registry_collector_ids(before)
    }
    &&& registry_family_names(after) == if ok {
        registry_family_names(before).insert(fq)
    } else {
        registry_family_names(before)
    }
    &&& registry_prefix(after) == registry_prefix(before)
}

/// `Registry::new()` (prometheus): a registry with nothing registered and
/// no prefix (`Registry::default()`).
#[verifier::external_body]
fn new_registry() -> (reg: Registry)
    ensures
        registry_desc_ids(reg) == Set::<u64>::empty(),
        registry_collector_ids(reg) == Set::<u64>::empty(),
        registry_dims(reg) =~= Map::empty(),
        registry_family_names(reg) == Set::<Seq<char>>::empty(),
        registry_prefix(reg) is None,
{
    Registry::new()
}

/// `[a-zA-Z_:]`: a character that may start a metric name.
pub open spec fn metric_name_start(c: char) -> bool {
    ('a' <= c && c <= 'z') || ('A' <= c && c <= 'Z') || c == '_' || c == ':'
}

/// `[a-zA-Z0-9_:]`: a character that may continue a metric name.
pub open spec fn metric_name_char(c: char) -> bool {
    metric_name_start(c) || ('0' <= c && c <= '9')
}

/// A Prometheus metric name: `[a-zA-Z_:][a-zA-Z0-9_:]*`.
pub open spec fn valid_metric_name(s: Seq<char>) -> bool {
    &&& s.len() > 0
    &&& metric_name_start(s[0])
    &&& forall|i: int| 1 <= i < s.len() ==> #[trigger] metric_name_char(s[i])
}

/// The fully qualified name of a metric in a namespace (no subsystem).
pub open spec fn fq_name(namespace: Seq<char>, name: Seq<char>) -> Seq<char> {
    if name.len() == 0 {
        Seq::empty()
    } else if namespace.len() == 0 {
        name
    } else {
        namespace + "_"@ + name
    }
}

/// Whether prometheus accepts a label-free metric with this name and help.
pub open spec fn counter_accepted(namespace: Seq<char>, name: Seq<char>, help: Seq<char>) -> bool {
    help.len() > 0 && valid_metric_name(fq_name(namespace, name))
}

/// Namespace of the monitor's metrics.
pub open spec fn monitor_namespace() -> Seq<char> {
    "cnc_monitor"@
}

/// `Counter::with_opts(Opts::new(name, help).namespace(namespace))`
/// (prometheus). As prometheus' `Desc::new` shows, a counter without labels
/// is refused exactly when the help text is empty or the fully qualified
/// name is not a valid metric name. The handle records that fully qualified
/// name and the help text, the descriptor's own, and a count of zero, which
/// is where prometheus starts a counter.
#[verifier::external_body]
fn new_counter(name: &str, help: &str, namespace: &str) -> (r: Result<
    CounterHandle,
    prometheus::Error,
>)
    ensures
        r is Ok <==> counter_accepted(namespace@, name@, help@),
        r matches Ok(c) ==> c.name() == fq_name(namespace@, name@) && c.help() == help@
            && c.count() == 0,
{
    match Counter::with_opts(Opts::new(name, help).namespace(namespace)) {
        Ok(counter) => Ok(
            CounterHandle {
                raw: PromCounter { counter },
                name: Ghost(fq_name(namespace@, name@)),
                help: Ghost(help@),
                count: Ghost(0),
            },
        ),
        Err(e) => Err(e),
    }
}

/// Whether every character of `s` from position `i` on may continue a
/// metric name.
spec fn name_chars_from(s: Seq<char>, i: int) -> bool
    decreases s.len() - i,
{
    if i < 0 || i >= s.len() {
        true
    } else {
        metric_name_char(s[i]) && name_chars_from(s, i + 1)
    }
}

proof fn lemma_name_chars_from(s: Seq<char>, i: int)
    requires
        0 <= i,
        name_chars_from(s, i),
    ensures
        forall|j: int| i <= j < s.len() ==> #[trigger] metric_name_char(s[j]),
    decreases s.len() - i,
{
    if i < s.len() {
        lemma_name_chars_from(s, i + 1);
    }
}

/// In the monitor's namespace, a non-empty name made of name characters is
/// accepted with any non-empty help text.
proof fn lemma_accepted(name: Seq<char>, help: Seq<char>)
    requires
        name.len() > 0,
        help.len() > 0,
        name_chars_from(name, 0),
    ensures
        counter_accepted(monitor_namespace(), name, help),
{
    reveal_strlit("cnc_monitor");
    reveal_strlit("_");
    let s = fq_name(monitor_namespace(), name);
    assert(s == monitor_namespace() + "_"@ + name);
    lemma_name_chars_from(name, 0);
    assert forall|j: int| 1 <= j < s.len() implies #[trigger] metric_name_char(s[j]) by {
        if j >= 12 {
            assert(s[j] == name[j - 12]);
        }
    }
}

/// Every counter of the monitor has a name and help text that prometheus
/// accepts.
proof fn lemma_monitor_counters_accepted()
    ensures
        counter_accepted(monitor_namespace(), "udp_packets_received_total"@, "Total number of UDP packets received from EtherCAT"@),
        counter_accepted(monitor_namespace(), "udp_packet_errors_total"@, "Total UDP packet parsing errors"@),
        counter_accepted(monitor_namespace(), "vibration_alarms_total"@, "Total vibration alarms triggered"@),
        counter_accepted(monitor_namespace(), "rul_alarms_total"@, "Total RUL critical alarms triggered"@),
        counter_accepted(monitor_namespace(), "clickhouse_inserts_total"@, "Total ClickHouse insert operations"@),
        counter_accepted(monitor_namespace(), "clickhouse_insert_errors_total"@, "Total ClickHouse insert errors"@),
        counter_accepted(monitor_namespace(), "mqtt_messages_sent_total"@, "Total MQTT messages published"@),
        counter_accepted(monitor_namespace(), "mqtt_message_errors_total"@, "Total MQTT publish errors"@),
{
    reveal_with_fuel(name_chars_from, 40);
    reveal_strlit("udp_packets_received_total");
    reveal_strlit("Total number of UDP packets received from EtherCAT");
    lemma_accepted("udp_packets_received_total"@, "Total number of UDP packets received from EtherCAT"@);
    reveal_strlit("udp_packet_errors_total");
    reveal_strlit("Total UDP packet parsing errors");
    lemma_accepted("udp_packet_errors_total"@, "Total UDP packet parsing errors"@);
    reveal_strlit("vibration_alarms_total");
    reveal_strlit("Total vibration alarms triggered");
    lemma_accepted("vibration_alarms_total"@, "Total vibration alarms triggered"@);
    reveal_strlit("rul_alarms_total");
    reveal_strlit("Total RUL critical alarms triggered");
    lemma_accepted("rul_alarms_total"@, "Total RUL critical alarms triggered"@);
    reveal_strlit("clickhouse_inserts_total");
    reveal_strlit("Total ClickHouse insert operations");
    lemma_accepted("clickhouse_inserts_total"@, "Total ClickHouse insert operations"@);
    reveal_strlit("clickhouse_insert_errors_total");
    reveal_strlit("Total ClickHouse insert errors");
    lemma_accepted("clickhouse_insert_errors_total"@, "Total ClickHouse insert errors"@);
    reveal_strlit("mqtt_messages_sent_total");
    reveal_strlit("Total MQTT messages published");
    lemma_accepted("mqtt_messages_sent_total"@, "Total MQTT messages published"@);
    reveal_strlit("mqtt_message_errors_total");
    reveal_strlit("Total MQTT publish errors");
    lemma_accepted("mqtt_message_errors_total"@, "Total MQTT publish errors"@);
}

/// `Registry::register` (prometheus) of a handle to the counter, which has
/// no labels and one descriptor, so its collector's identity is the
/// descriptor's. As `RegistryCore::register` shows: it is refused when the
/// identity is already a descriptor's, when the name was registered with
/// another help text, or when the identity is already a collector's; the
/// name's dimension hash is recorded before the last of these checks.
/// prometheus mutates the registry behind `&self`; the wrapper takes it by
/// `&mut`, and the only registry it is used on is the private, never cloned
/// one of `ServiceMetrics`, so no other registration can change it unseen.
/// The counter's name and help are those `new_counter` recorded from the
/// arguments it handed prometheus. Once registered, the counter's collector
/// yields one metric family with one metric, named by the counter's fully
/// qualified name (`Collector::collect`, `Value::collect`); registration
/// leaves the registry's prefix as it was.
#[verifier::external_body]
fn register_counter(registry: &mut Registry, counter: &CounterHandle) -> (r: Result<
    (),
    prometheus::Error,
>)
    ensures
        ({
            let id = metric_desc_id(counter.name());
            let h = metric_dim_hash(counter.help());
            let fits = !registry_desc_ids(*old(registry)).contains(id) && (registry_dims(
                *old(registry),
            ).contains_key(counter.name()) ==> registry_dims(*old(registry))[counter.name()] == h);
            &&& r is Ok <==> fits && !registry_collector_ids(*old(registry)).contains(id)
            &&& registry_dims(*final(registry)) == if fits {
                registry_dims(*old(registry)).insert(counter.name(), h)
            } else {
                registry_dims(*old(registry))
            }
            &&& registry_desc_ids(*final(registry)) == if r is Ok {
                registry_desc_ids(*old(registry)).insert(id)
            } else {
                registry_desc_ids(*old(registry))
            }
            &&& registry_collector_ids(*final(registry)) == if r is Ok {
                registry_collector_ids(*old(registry)).insert(id)
            } else {
                registry_collector_ids(*old(registry))
            }
            &&& registry_family_names(*final(registry)) == if r is Ok {
                registry_family_names(*old(registry)).insert(counter.name())
            } else {
                registry_family_names(*old(registry))
            }
            &&& registry_prefix(*final(registry)) == registry_prefix(*old(registry))
        }),
{
    registry.register(Box::new(counter.raw.counter.clone()))
}

/// `Counter::inc` (prometheus): adds one to the counter, which the handle
/// records in its count.
#[verifier::external_body]
fn counter_inc(c: &mut CounterHandle)
    ensures
        final(c).count() == old(c).count() + 1,
        final(c).name() == old(c).name(),
        final(c).help() == old(c).help(),
{
    c.raw.counter.inc()
}

/// `Registry::gather` (prometheus): collects every registered collector,
/// drops empty families, merges families of one name in a `BTreeMap` keyed
/// by name, and returns them in the map's order. So, for a registry without
/// a prefix, the result holds one family per name its collectors yield, in
/// strictly increasing order of names. With a prefix, which renames the
/// families after they are ordered, nothing is claimed; nor about the
/// families' metrics, which hold floating-point values.
#[verifier::external_body]
fn registry_gather(registry: &Registry) -> (r: Vec<prometheus::proto::MetricFamily>)
    ensures
        registry_prefix(*registry) is None ==> {
            &&& names_increase(r@)
            &&& r@.map_values(|f: prometheus::proto::MetricFamily| metric_family_name(f)).to_set()
                == registry_family_names(*registry)
        },
{
    registry.gather()
}

/// A counter of the monitor's namespace, registered in `registry`. Creation
/// fails exactly when prometheus refuses the name or the help text;
/// registration as `register_counter` says.
fn counter(registry: &mut Registry, name: &str, help: &str) -> (r: Result<
    CounterHandle,
    MetricsError,
>)
    ensures
        ({
            let fq = fq_name(monitor_namespace(), name@);
            if !counter_accepted(monitor_namespace(), name@, help@) {
                &&& r == Err::<CounterHandle, MetricsError>(MetricsError::Create)
                &&& *final(registry) == *old(registry)
            } else {
                &&& r is Ok <==> registrable(*old(registry), fq, help@)
                &&& registered_after(*old(registry), *final(registry), fq, help@, r is Ok)
                &&& r matches Err(e) ==> e == MetricsError::Register
                &&& r matches Ok(c) ==> c.name() == fq && c.help() == help@ && c.count() == 0
            }
        }),
{
    let namespace = "cnc_monitor";
    proof {
        reveal_strlit("cnc_monitor");
    }
    let c = match new_counter(name, help, namespace) {
        Ok(c) => c,
        Err(_) => {
            return Err(MetricsError::Create);
        },
    };
    match register_counter(registry, &c) {
        Ok(()) => Ok(c),
        Err(_) => Err(MetricsError::Register),
    }
}

/// Names of the monitor's counters, in the order of the fields of
/// `ServiceMetrics`.
pub open spec fn monitor_counter_names() -> Seq<Seq<char>> {
    seq![
        "udp_packets_received_total"@,
        "udp_packet_errors_total"@,
        "vibration_alarms_total"@,
        "rul_alarms_total"@,
        "clickhouse_inserts_total"@,
        "clickhouse_insert_errors_total"@,
        "mqtt_messages_sent_total"@,
        "mqtt_message_errors_total"@,
    ]
}

/// Help texts of the monitor's counters, in the same order.
pub open spec fn monitor_counter_helps() -> Seq<Seq<char>> {
    seq![
        "Total number of UDP packets received from EtherCAT"@,
        "Total UDP packet parsing errors"@,
        "Total vibration alarms triggered"@,
        "Total RUL critical alarms triggered"@,
        "Total ClickHouse insert operations"@,
        "Total ClickHouse insert errors"@,
        "Total MQTT messages published"@,
        "Total MQTT publish errors"@,
    ]
}

/// Fully qualified name of the `i`-th counter: `cnc_monitor_` and its name.
pub open spec fn monitor_fq(i: int) -> Seq<char> {
    fq_name(monitor_namespace(), monitor_counter_names()[i])
}

/// Whether the first `k` counters have pairwise different identities.
pub open spec fn ids_distinct_upto(k: int) -> bool {
    forall|i: int, j: int|
        0 <= i < j < k ==> metric_desc_id(#[trigger] monitor_fq(i)) != metric_desc_id(
            #[trigger] monitor_fq(j),
        )
}

/// Whether prometheus gives the eight counters eight different identities.
pub open spec fn monitor_ids_distinct() -> bool {
    ids_distinct_upto(8)
}

/// Identities of the first `k` counters.
spec fn first_ids(k: nat) -> Set<u64>
    decreases k,
{
    if k == 0 {
        Set::empty()
    } else {
        first_ids((k - 1) as nat).insert(metric_desc_id(monitor_fq(k - 1)))
    }
}

/// Dimension hashes of the first `k` counters, by name.
spec fn first_dims(k: nat) -> Map<Seq<char>, u64>
    decreases k,
{
    if k == 0 {
        Map::empty()
    } else {
        first_dims((k - 1) as nat).insert(
            monitor_fq(k - 1),
            metric_dim_hash(monitor_counter_helps()[k - 1]),
        )
    }
}

/// Fully qualified names of the first `k` counters.
spec fn first_names(k: nat) -> Set<Seq<char>>
    decreases k,
{
    if k == 0 {
        Set::empty()
    } else {
        first_names((k - 1) as nat).insert(monitor_fq(k - 1))
    }
}

/// The registry has no prefix and holds exactly the first `k` counters.
spec fn holds_first(reg: Registry, k: nat) -> bool {
    &&& registry_desc_ids(reg) == first_ids(k)
    &&& registry_collector_ids(reg) == first_ids(k)
    &&& registry_dims(reg) == first_dims(k)
    &&& registry_family_names(reg) == first_names(k)
    &&& registry_prefix(reg) is None
}

proof fn lemma_first_names(k: nat, n: Seq<char>)
    ensures
        first_names(k).contains(n) <==> exists|i: int| 0 <= i < k && n == #[trigger] monitor_fq(i),
    decreases k,
{
    if k > 0 {
        lemma_first_names((k - 1) as nat, n);
        if n == monitor_fq(k - 1) {
            assert(0 <= k - 1 < k && n == monitor_fq(k - 1));
        }
    }
}

/// Fully qualified names of the monitor's counters.
pub open spec fn monitor_fq_names() -> Set<Seq<char>> {
    Set::new(|n: Seq<char>| exists|i: int| 0 <= i < 8 && n == #[trigger] monitor_fq(i))
}

/// With distinct identities, the counters have eight distinct names.
proof fn lemma_monitor_fq_names()
    requires
        monitor_ids_distinct(),
    ensures
        first_names(8) == monitor_fq_names(),
        monitor_fq_names().len() == 8,
{
    assert forall|n: Seq<char>| first_names(8).contains(n) <==> monitor_fq_names().contains(n) by {
        lemma_first_names(8, n);
    }
    assert(first_names(8) =~= monitor_fq_names());
    let names = Seq::new(8, |i: int| monitor_fq(i));
    assert forall|i: int, j: int|
        0 <= i < names.len() && 0 <= j < names.len() && i != j implies names[i] != names[j] by {
        if i < j {
            assert(metric_desc_id(monitor_fq(i)) != metric_desc_id(monitor_fq(j)));
        } else {
            assert(metric_desc_id(monitor_fq(j)) != metric_desc_id(monitor_fq(i)));
        }
    }
    names.unique_seq_to_set();
    assert forall|n: Seq<char>| names.to_set().contains(n) <==> monitor_fq_names().contains(n) by {
        if monitor_fq_names().contains(n) {
            let i = choose|i: int| 0 <= i < 8 && n == #[trigger] monitor_fq(i);
            assert(names[i] == n);
        }
    }
    assert(names.to_set() =~= monitor_fq_names());
}

proof fn lemma_first_ids(k: nat, x: u64)
    ensures
        first_ids(k).contains(x) <==> exists|i: int| 0 <= i < k && x == metric_desc_id(#[trigger] monitor_fq(i)),
    decreases k,
{
    if k > 0 {
        lemma_first_ids((k - 1) as nat, x);
        if first_ids(k).contains(x) && x == metric_desc_id(monitor_fq(k - 1)) {
            assert(0 <= k - 1 < k && x == metric_desc_id(monitor_fq(k - 1)));
        }
    }
}

proof fn lemma_first_dims(k: nat, n: Seq<char>)
    ensures
        first_dims(k).contains_key(n) ==> exists|i: int| 0 <= i < k && n == #[trigger] monitor_fq(i),
    decreases k,
{
    if k > 0 {
        lemma_first_dims((k - 1) as nat, n);
        if n == monitor_fq(k - 1) {
            assert(0 <= k - 1 < k && n == monitor_fq(k - 1));
        }
    }
}

/// The `k`-th counter of the monitor, registered in a registry holding the
/// first `k`.
fn monitor_counter(registry: &mut Registry, name: &str, help: &str, Ghost(k): Ghost<nat>) -> (r:
    Result<CounterHandle, MetricsError>)
    requires
        k < 8,
        holds_first(*old(registry), k),
        ids_distinct_upto(k as int),
        name@ == monitor_counter_names()[k as int],
        help@ == monitor_counter_helps()[k as int],
        counter_accepted(monitor_namespace(), name@, help@),
    ensures
        match r {
            Ok(c) => {
                &&& holds_first(*final(registry), k + 1)
                &&& ids_distinct_upto(k + 1int)
                &&& c.name() == monitor_fq(k as int)
                &&& c.help() == monitor_counter_helps()[k as int]
                &&& c.count() == 0
            },
            Err(e) => e == MetricsError::Register && !ids_distinct_upto(k + 1int),
        },
{
    let r = counter(registry, name, help);
    proof {
        let fq = monitor_fq(k as int);
        let id = metric_desc_id(fq);
        let ghost old_reg = *old(registry);
        lemma_first_ids(k, id);
        lemma_first_dims(k, fq);
        lemma_first_names(k, fq);
        if registrable(old_reg, fq, help@) {
            assert forall|i: int, j: int|
                0 <= i < j < k + 1 implies metric_desc_id(#[trigger] monitor_fq(i)) != metric_desc_id(
                #[trigger] monitor_fq(j),
            ) by {
                if j == k {
                    if metric_desc_id(monitor_fq(i)) == id {
                        assert(first_ids(k).contains(id));
                    }
                }
            }
            assert(first_ids(k + 1) == first_ids(k).insert(id));
            assert(first_dims(k + 1) == first_dims(k).insert(fq, metric_dim_hash(help@)));
            assert(first_names(k + 1) == first_names(k).insert(fq));
        } else {
            let i = choose|i: int| 0 <= i < k && (id == metric_desc_id(#[trigger] monitor_fq(i)) || fq
                == monitor_fq(i));
            assert(0 <= i < k && (id == metric_desc_id(monitor_fq(i)) || fq == monitor_fq(i)));
            assert(metric_desc_id(monitor_fq(i)) == metric_desc_id(monitor_fq(k as int)));
        }
    }
    r
}

/// Families in strictly increasing order of names are as many as their
/// names.
proof fn lemma_one_family_per_name(fams: Seq<prometheus::proto::MetricFamily>)
    requires
        names_increase(fams),
    ensures
        fams.len() == names_of(fams).len(),
{
    let seen = fams.map_values(|f: prometheus::proto::MetricFamily| metric_family_name(f));
    assert forall|i: int, j: int|
        0 <= i < seen.len() && 0 <= j < seen.len() && i != j implies seen[i] != seen[j] by {
        if i < j {
            assert(name_precedes(metric_family_name(fams[i]), metric_family_name(fams[j])));
        } else {
            assert(name_precedes(metric_family_name(fams[j]), metric_family_name(fams[i])));
        }
    }
    seen.unique_seq_to_set();
}

impl ServiceMetrics {
    /// The counters, in field order.
    pub closed spec fn handles(&self) -> Seq<CounterHandle> {
        seq![
            self.udp_packets_received,
            self.udp_packet_errors,
            self.vibration_alarms,
            self.rul_alarms,
            self.clickhouse_inserts,
            self.clickhouse_insert_errors,
            self.mqtt_messages_sent,
            self.mqtt_message_errors,
        ]
    }

    /// Descriptor identities registered in the monitor's registry.
    pub closed spec fn registered_ids(&self) -> Set<u64> {
        registry_desc_ids(self.registry)
    }

    /// The registry has no prefix and yields one family for each of the
    /// eight counters, which have eight different names.
    pub closed spec fn wf(&self) -> bool {
        &&& registry_prefix(self.registry) is None
        &&& registry_family_names(self.registry) == monitor_fq_names()
        &&& monitor_fq_names().len() == 8
    }

    /// Whether `self` is `before` with one more increment of counter `i`
    /// and nothing else changed, the registry included.
    pub closed spec fn bumped(self, before: ServiceMetrics, i: int) -> bool {
        &&& self.registry == before.registry
        &&& self.handles()[i].count() == before.handles()[i].count() + 1
        &&& self.handles()[i].name() == before.handles()[i].name()
        &&& self.handles()[i].help() == before.handles()[i].help()
        &&& forall|j: int| 0 <= j < 8 && j != i ==> #[trigger] self.handles()[j] == before.handles()[j]
    }

    /// Creates every counter in the `cnc_monitor` namespace and registers it
    /// in a fresh registry. Creation never fails (every name and help text
    /// is one prometheus accepts); registration succeeds exactly when
    /// prometheus gives the eight names eight different identities.
    pub fn new() -> (r: Result<Self, MetricsError>)
        ensures
            r is Ok <==> monitor_ids_distinct(),
            r matches Err(e) ==> e == MetricsError::Register,
            r matches Ok(m) ==> {
                &&& forall|i: int|
                    0 <= i < 8 ==> {
                        &&& (#[trigger] m.handles()[i]).name() == monitor_fq(i)
                        &&& m.handles()[i].help() == monitor_counter_helps()[i]
                        &&& m.handles()[i].count() == 0
                    }
                &&& m.registered_ids() == Set::<u64>::new(
                    |id: u64| exists|i: int| 0 <= i < 8 && id == metric_desc_id(#[trigger] monitor_fq(i)),
                )
                &&& m.wf()
            },
    {
        proof {
            lemma_monitor_counters_accepted();
        }
        let mut registry = new_registry();
        proof {
            assert(first_ids(0) == Set::<u64>::empty());
            assert(first_dims(0) =~= Map::<Seq<char>, u64>::empty());
        }
        let udp_packets_received = monitor_counter(
            &mut registry,
            "udp_packets_received_total",
            "Total number of UDP packets received from EtherCAT",
            Ghost(0nat),
        )?;
        let udp_packet_errors = monitor_counter(
            &mut registry,
            "udp_packet_errors_total",
            "Total UDP packet parsing errors",
            Ghost(1nat),
        )?;
        let vibration_alarms = monitor_counter(
            &mut registry,
            "vibration_alarms_total",
            "Total vibration alarms triggered",
            Ghost(2nat),
        )?;
        let rul_alarms = monitor_counter(
            &mut registry,
            "rul_alarms_total",
            "Total RUL critical alarms triggered",
            Ghost(3nat),
        )?;
        let clickhouse_inserts = monitor_counter(
            &mut registry,
            "clickhouse_inserts_total",
            "Total ClickHouse insert operations",
            Ghost(4nat),
        )?;
        let clickhouse_insert_errors = monitor_counter(
            &mut registry,
            "clickhouse_insert_errors_total",
            "Total ClickHouse insert errors",
            Ghost(5nat),
        )?;
        let mqtt_messages_sent = monitor_counter(
            &mut registry,
            "mqtt_messages_sent_total",
            "Total MQTT messages published",
            Ghost(6nat),
        )?;
        let mqtt_message_errors = monitor_counter(
            &mut registry,
            "mqtt_message_errors_total",
            "Total MQTT publish errors",
            Ghost(7nat),
        )?;
        proof {
            lemma_monitor_fq_names();
        }
        Ok(
            ServiceMetrics {
                registry,
                udp_packets_received,
                udp_packet_errors,
                vibration_alarms,
                rul_alarms,
                clickhouse_inserts,
                clickhouse_insert_errors,
                mqtt_messages_sent,
                mqtt_message_errors,
            },
        )
    }

    /// The metric families of the registry, for export: one for each
    /// counter, in increasing order of names.
    pub fn families(&self) -> (r: Vec<prometheus::proto::MetricFamily>)
        requires
            self.wf(),
        ensures
            r@.len() == 8,
            names_increase(r@),
            names_of(r@) == monitor_fq_names(),
    {
        let r = registry_gather(&self.registry);
        proof {
            lemma_one_family_per_name(r@);
        }
        r
    }
}

/// Law: `n` increments of counter `i` in a row raise its count by `n` and
/// leave every other counter, and the registry, as they were.
pub proof fn lemma_increments_add_up(states: Seq<ServiceMetrics>, i: int)
    requires
        0 <= i < 8,
        states.len() >= 1,
        forall|k: int| 0 <= k < states.len() - 1 ==> #[trigger] states[k + 1].bumped(states[k], i),
    ensures
        states.last().handles()[i].count() == states[0].handles()[i].count() + states.len() - 1,
        states.last().handles()[i].name() == states[0].handles()[i].name(),
        forall|j: int| 0 <= j < 8 && j != i ==> #[trigger] states.last().handles()[j] == states[0].handles()[j],
        states.last().registered_ids() == states[0].registered_ids(),
    decreases states.len(),
{
    if states.len() > 1 {
        let prefix = states.drop_last();
        assert forall|k: int| 0 <= k < prefix.len() - 1 implies #[trigger] prefix[k + 1].bumped(prefix[k], i) by {
            assert(states[k + 1].bumped(states[k], i));
        }
        lemma_increments_add_up(prefix, i);
        let k = states.len() - 2;
        assert(states[k + 1].bumped(states[k], i));
        assert(prefix.last() == states[k]);
    }
}

/// Counts one received UDP packet.
pub fn increment_udp_packets(metrics: &mut ServiceMetrics)
    ensures
        final(metrics).bumped(*old(metrics), 0),
        final(metrics).wf() == old(metrics).wf(),
{
    counter_inc(&mut metrics.udp_packets_received);
}

/// Counts one UDP packet that failed to parse.
pub fn increment_udp_errors(metrics: &mut ServiceMetrics)
    ensures
        final(metrics).bumped(*old(metrics), 1),
        final(metrics).wf() == old(metrics).wf(),
{
    counter_inc(&mut metrics.udp_packet_errors);
}

/// Counts one vibration alarm.
pub fn increment_vibration_alarms(metrics: &mut ServiceMetrics)
    ensures
        final(metrics).bumped(*old(metrics), 2),
        final(metrics).wf() == old(metrics).wf(),
{
    counter_inc(&mut metrics.vibration_alarms);
}

/// Counts one remaining-useful-life alarm.
pub fn increment_rul_alarms(metrics: &mut ServiceMetrics)
    ensures
        final(metrics).bumped(*old(metrics), 3),
        final(metrics).wf() == old(metrics).wf(),
{
    counter_inc(&mut metrics.rul_alarms);
}

/// Counts one ClickHouse insert.
pub fn increment_clickhouse_inserts(metrics: &mut ServiceMetrics)
    ensures
        final(metrics).bumped(*old(metrics), 4),
        final(metrics).wf() == old(metrics).wf(),
{
    counter_inc(&mut metrics.clickhouse_inserts);
}

/// Counts one failed ClickHouse insert.
pub fn increment_clickhouse_errors(metrics: &mut ServiceMetrics)
    ensures
        final(metrics).bumped(*old(metrics), 5),
        final(metrics).wf() == old(metrics).wf(),
{
    counter_inc(&mut metrics.clickhouse_insert_errors);
}

/// Counts one published MQTT message.
pub fn increment_mqtt_sent(metrics: &mut ServiceMetrics)
    ensures
        final(metrics).bumped(*old(metrics), 6),
        final(metrics).wf() == old(metrics).wf(),
{
    counter_inc(&mut metrics.mqtt_messages_sent);
}

/// Counts one failed MQTT publish.
pub fn increment_mqtt_errors(metrics: &mut ServiceMetrics)
    ensures
        final(metrics).bumped(*old(metrics), 7),
        final(metrics).wf() == old(metrics).wf(),
{
    counter_inc(&mut metrics.mqtt_message_errors);
}

} // verus!
