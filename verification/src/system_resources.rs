//! CPU and RAM telemetry of an instance's host.
//!
//! Samples arrive as two-element arrays of a fractional timestamp and a
//! reading; the timestamp is a wire number and is carried as its decimal
//! text, since the schema never computes with it.

use vstd::prelude::*;

use crate::error::DecodeError;
use crate::json::{
    get_string, get_u64, mem_str, mem_u64, member, num_text_of, req_member, str_of, Json,
};

verus! {

/// Which core a CPU series describes.
#[derive(Debug, Clone, PartialEq)]
pub struct CpuMetricData {
    pub core: String,
}

pub struct CpuMetricDataV {
    pub core: Seq<char>,
}

impl View for CpuMetricData {
    type V = CpuMetricDataV;

    open spec fn view(&self) -> CpuMetricDataV {
        CpuMetricDataV { core: self.core@ }
    }
}

pub open spec fn spec_cpu_metric_data(j: Json) -> Option<CpuMetricDataV> {
    match mem_str(j, "core"@) {
        Some(core) => Some(CpuMetricDataV { core }),
        None => None,
    }
}

impl CpuMetricData {
    pub fn decode(j: &Json) -> (r: Result<CpuMetricData, DecodeError>)
        ensures
            r matches Ok(v) ==> spec_cpu_metric_data(*j) == Some(v@),
            r is Err ==> spec_cpu_metric_data(*j) is None,
    {
        let core = get_string(j, "core")?;
        Ok(CpuMetricData { core })
    }
}

/// Which virtual machine a RAM series describes.
#[derive(Debug, Clone, PartialEq)]
pub struct RamMetricData {
    pub instance: String,
    pub job: String,
    pub monitor: String,
    pub vm_uuid: String,
}

pub struct RamMetricDataV {
    pub instance: Seq<char>,
    pub job: Seq<char>,
    pub monitor: Seq<char>,
    pub vm_uuid: Seq<char>,
}

impl View for RamMetricData {
    type V = RamMetricDataV;

    open spec fn view(&self) -> RamMetricDataV {
        RamMetricDataV {
            instance: self.instance@,
            job: self.job@,
            monitor: self.monitor@,
            vm_uuid: self.vm_uuid@,
        }
    }
}

pub open spec fn spec_ram_metric_data(j: Json) -> Option<RamMetricDataV> {
    let instance = mem_str(j, "instance"@);
    let job = mem_str(j, "job"@);
    let monitor = mem_str(j, "monitor"@);
    let vm_uuid = mem_str(j, "vm_uuid"@);
    if instance is Some && job is Some && monitor is Some && vm_uuid is Some {
        Some(
            RamMetricDataV {
                instance: instance->0,
                job: job->0,
                monitor: monitor->0,
                vm_uuid: vm_uuid->0,
            },
        )
    } else {
        None
    }
}

impl RamMetricData {
    pub fn decode(j: &Json) -> (r: Result<RamMetricData, DecodeError>)
        ensures
            r matches Ok(v) ==> spec_ram_metric_data(*j) == Some(v@),
            r is Err ==> spec_ram_metric_data(*j) is None,
    {
        let instance = get_string(j, "instance")?;
        let job = get_string(j, "job")?;
        let monitor = get_string(j, "monitor")?;
        let vm_uuid = get_string(j, "vm_uuid")?;
        Ok(RamMetricData { instance, job, monitor, vm_uuid })
    }
}

/// One sample: the timestamp's decimal text and the reading.
pub open spec fn sample_of(v: Json) -> Option<(Seq<char>, Seq<char>)> {
    match v {
        Json::Arr(a) => if a@.len() == 2 {
            match (num_text_of(a@[0]), str_of(a@[1])) {
                (Some(t), Some(s)) => Some((t, s)),
                _ => None,
            }
        } else {
            None
        },
        _ => None,
    }
}

pub open spec fn samples_of(a: Seq<Json>) -> Option<Seq<(Seq<char>, Seq<char>)>>
    decreases a.len(),
{
    if a.len() == 0 {
        Some(Seq::empty())
    } else {
        match (samples_of(a.drop_last()), sample_of(a.last())) {
            (Some(p), Some(v)) => Some(p.push(v)),
            _ => None,
        }
    }
}

pub open spec fn sample_seq_of(v: Json) -> Option<Seq<(Seq<char>, Seq<char>)>> {
    match v {
        Json::Arr(a) => samples_of(a@),
        _ => None,
    }
}

pub open spec fn sample_views(xs: Seq<(String, String)>) -> Seq<(Seq<char>, Seq<char>)> {
    xs.map_values(|p: (String, String)| (p.0@, p.1@))
}

proof fn lemma_samples_bad(a: Seq<Json>, i: int)
    requires
        0 <= i < a.len(),
        sample_of(a[i]) is None,
    ensures
        samples_of(a) is None,
    decreases a.len(),
{
    if i < a.len() - 1 {
        assert(a.drop_last()[i] == a[i]);
        lemma_samples_bad(a.drop_last(), i);
    }
}

/// Decodes a series of samples.
pub fn decode_samples(c: &Json, k: &str) -> (r: Result<Vec<(String, String)>, DecodeError>)
    ensures
        r matches Ok(v) ==> sample_seq_of(*c) == Some(sample_views(v@)),
        r is Err ==> sample_seq_of(*c) is None,
{
    match c {
        Json::Arr(a) => {
            let mut out: Vec<(String, String)> = Vec::new();
            let n = a.len();
            let mut i: usize = 0;
            proof {
                assert(a@.take(0) =~= Seq::<Json>::empty());
                assert(sample_views(out@) =~= Seq::<(Seq<char>, Seq<char>)>::empty());
            }
            while i < n
                invariant
                    i <= n == a@.len(),
                    *c == Json::Arr(*a),
                    samples_of(a@.take(i as int)) == Some(sample_views(out@)),
                decreases n - i,
            {
                proof {
                    assert(a@.take(i as int + 1).drop_last() =~= a@.take(i as int));
                    assert(a@.take(i as int + 1).last() == a@[i as int]);
                }
                match &a[i] {
                    Json::Arr(pair) => {
                        if pair.len() != 2 {
                            proof {
                                lemma_samples_bad(a@, i as int);
                            }
                            return Err(DecodeError::at(k));
                        }
                        match (&pair[0], &pair[1]) {
                            (Json::Num(t), Json::Str(s)) => {
                                let ghost prev = out@;
                                out.push((t.clone(), s.clone()));
                                proof {
                                    assert(sample_of(a@[i as int]) == Some((t@, s@)));
                                    assert(sample_views(out@) =~= sample_views(prev).push(
                                        (t@, s@),
                                    ));
                                }
                            },
                            _ => {
                                proof {
                                    lemma_samples_bad(a@, i as int);
                                }
                                return Err(DecodeError::at(k));
                            },
                        }
                    },
                    _ => {
                        proof {
                            lemma_samples_bad(a@, i as int);
                        }
                        return Err(DecodeError::at(k));
                    },
                }
                i += 1;
            }
            proof {
                assert(a@.take(n as int) =~= a@);
            }
            Ok(out)
        },
        _ => Err(DecodeError::at(k)),
    }
}

/// One CPU series: its core label and its samples.
#[derive(Debug, Clone, PartialEq)]
pub struct CpuMetric {
    pub metric: CpuMetricData,
    pub values: Vec<(String, String)>,
}

pub struct CpuMetricV {
    pub metric: CpuMetricDataV,
    pub values: Seq<(Seq<char>, Seq<char>)>,
}

impl View for CpuMetric {
    type V = CpuMetricV;

    open spec fn view(&self) -> CpuMetricV {
        CpuMetricV { metric: self.metric@, values: sample_views(self.values@) }
    }
}

pub open spec fn spec_cpu_metric(j: Json) -> Option<CpuMetricV> {
    let metric = match member(j, "metric"@) {
        Some(v) => spec_cpu_metric_data(v),
        None => None,
    };
    let values = match member(j, "values"@) {
        Some(v) => sample_seq_of(v),
        None => None,
    };
    if metric is Some && values is Some {
        Some(CpuMetricV { metric: metric->0, values: values->0 })
    } else {
        None
    }
}

impl CpuMetric {
    pub fn decode(j: &Json) -> (r: Result<CpuMetric, DecodeError>)
        ensures
            r matches Ok(v) ==> spec_cpu_metric(*j) == Some(v@),
            r is Err ==> spec_cpu_metric(*j) is None,
    {
        let metric = CpuMetricData::decode(req_member(j, "metric")?)?;
        let values = decode_samples(req_member(j, "values")?, "values")?;
        Ok(CpuMetric { metric, values })
    }
}

/// One RAM series: its labels and its samples.
#[derive(Debug, Clone, PartialEq)]
pub struct RamMetric {
    pub metric: RamMetricData,
    pub values: Vec<(String, String)>,
}

pub struct RamMetricV {
    pub metric: RamMetricDataV,
    pub values: Seq<(Seq<char>, Seq<char>)>,
}

impl View for RamMetric {
    type V = RamMetricV;

    open spec fn view(&self) -> RamMetricV {
        RamMetricV { metric: self.metric@, values: sample_views(self.values@) }
    }
}

pub open spec fn spec_ram_metric(j: Json) -> Option<RamMetricV> {
    let metric = match member(j, "metric"@) {
        Some(v) => spec_ram_metric_data(v),
        None => None,
    };
    let values = match member(j, "values"@) {
        Some(v) => sample_seq_of(v),
        None => None,
    };
    if metric is Some && values is Some {
        Some(RamMetricV { metric: metric->0, values: values->0 })
    } else {
        None
    }
}

impl RamMetric {
    pub fn decode(j: &Json) -> (r: Result<RamMetric, DecodeError>)
        ensures
            r matches Ok(v) ==> spec_ram_metric(*j) == Some(v@),
            r is Err ==> spec_ram_metric(*j) is None,
    {
        let metric = RamMetricData::decode(req_member(j, "metric")?)?;
        let values = decode_samples(req_member(j, "values")?, "values")?;
        Ok(RamMetric { metric, values })
    }
}

pub open spec fn cpu_metrics_of(a: Seq<Json>) -> Option<Seq<CpuMetricV>>
    decreases a.len(),
{
    if a.len() == 0 {
        Some(Seq::empty())
    } else {
        match (cpu_metrics_of(a.drop_last()), spec_cpu_metric(a.last())) {
            (Some(p), Some(v)) => Some(p.push(v)),
            _ => None,
        }
    }
}

pub open spec fn ram_metrics_of(a: Seq<Json>) -> Option<Seq<RamMetricV>>
    decreases a.len(),
{
    if a.len() == 0 {
        Some(Seq::empty())
    } else {
        match (ram_metrics_of(a.drop_last()), spec_ram_metric(a.last())) {
            (Some(p), Some(v)) => Some(p.push(v)),
            _ => None,
        }
    }
}

proof fn lemma_cpu_metrics_bad(a: Seq<Json>, i: int)
    requires
        0 <= i < a.len(),
        spec_cpu_metric(a[i]) is None,
    ensures
        cpu_metrics_of(a) is None,
    decreases a.len(),
{
    if i < a.len() - 1 {
        assert(a.drop_last()[i] == a[i]);
        lemma_cpu_metrics_bad(a.drop_last(), i);
    }
}

proof fn lemma_ram_metrics_bad(a: Seq<Json>, i: int)
    requires
        0 <= i < a.len(),
        spec_ram_metric(a[i]) is None,
    ensures
        ram_metrics_of(a) is None,
    decreases a.len(),
{
    if i < a.len() - 1 {
        assert(a.drop_last()[i] == a[i]);
        lemma_ram_metrics_bad(a.drop_last(), i);
    }
}

pub open spec fn cpu_metric_views(xs: Seq<CpuMetric>) -> Seq<CpuMetricV> {
    xs.map_values(|x: CpuMetric| x@)
}

pub open spec fn ram_metric_views(xs: Seq<RamMetric>) -> Seq<RamMetricV> {
    xs.map_values(|x: RamMetric| x@)
}

pub fn decode_cpu_metrics(c: &Json, k: &str) -> (r: Result<Vec<CpuMetric>, DecodeError>)
    ensures
        r matches Ok(v) ==> (match *c {
            Json::Arr(a) => cpu_metrics_of(a@) == Some(cpu_metric_views(v@)),
            _ => false,
        }),
        r is Err ==> (match *c {
            Json::Arr(a) => cpu_metrics_of(a@) is None,
            _ => true,
        }),
{
    match c {
        Json::Arr(a) => {
            let mut out: Vec<CpuMetric> = Vec::new();
            let n = a.len();
            let mut i: usize = 0;
            proof {
                assert(a@.take(0) =~= Seq::<Json>::empty());
                assert(cpu_metric_views(out@) =~= Seq::<CpuMetricV>::empty());
            }
            while i < n
                invariant
                    i <= n == a@.len(),
                    *c == Json::Arr(*a),
                    cpu_metrics_of(a@.take(i as int)) == Some(cpu_metric_views(out@)),
                decreases n - i,
            {
                match CpuMetric::decode(&a[i]) {
                    Ok(x) => {
                        let ghost prev = out@;
                        out.push(x);
                        proof {
                            assert(a@.take(i as int + 1).drop_last() =~= a@.take(i as int));
                            assert(a@.take(i as int + 1).last() == a@[i as int]);
                            assert(cpu_metric_views(out@) =~= cpu_metric_views(prev).push(
                                out@.last()@,
                            ));
                        }
                    },
                    Err(_) => {
                        proof {
                            lemma_cpu_metrics_bad(a@, i as int);
                        }
                        return Err(DecodeError::at(k));
                    },
                }
                i += 1;
            }
            proof {
                assert(a@.take(n as int) =~= a@);
            }
            Ok(out)
        },
        _ => Err(DecodeError::at(k)),
    }
}

pub fn decode_ram_metrics(c: &Json, k: &str) -> (r: Result<Vec<RamMetric>, DecodeError>)
    ensures
        r matches Ok(v) ==> (match *c {
            Json::Arr(a) => ram_metrics_of(a@) == Some(ram_metric_views(v@)),
            _ => false,
        }),
        r is Err ==> (match *c {
            Json::Arr(a) => ram_metrics_of(a@) is None,
            _ => true,
        }),
{
    match c {
        Json::Arr(a) => {
            let mut out: Vec<RamMetric> = Vec::new();
            let n = a.len();
            let mut i: usize = 0;
            proof {
                assert(a@.take(0) =~= Seq::<Json>::empty());
                assert(ram_metric_views(out@) =~= Seq::<RamMetricV>::empty());
            }
            while i < n
                invariant
                    i <= n == a@.len(),
                    *c == Json::Arr(*a),
                    ram_metrics_of(a@.take(i as int)) == Some(ram_metric_views(out@)),
                decreases n - i,
            {
                match RamMetric::decode(&a[i]) {
                    Ok(x) => {
                        let ghost prev = out@;
                        out.push(x);
                        proof {
                            assert(a@.take(i as int + 1).drop_last() =~= a@.take(i as int));
                            assert(a@.take(i as int + 1).last() == a@[i as int]);
                            assert(ram_metric_views(out@) =~= ram_metric_views(prev).push(
                                out@.last()@,
                            ));
                        }
                    },
                    Err(_) => {
                        proof {
                            lemma_ram_metrics_bad(a@, i as int);
                        }
                        return Err(DecodeError::at(k));
                    },
                }
                i += 1;
            }
            proof {
                assert(a@.take(n as int) =~= a@);
            }
            Ok(out)
        },
        _ => Err(DecodeError::at(k)),
    }
}

/// The telemetry answer of the resources endpoint.
#[derive(Debug, Clone, PartialEq)]
pub struct ServerResources {
    pub cpus: Vec<CpuMetric>,
    pub max_ram: u64,
    pub ram: Vec<RamMetric>,
}

pub struct ServerResourcesV {
    pub cpus: Seq<CpuMetricV>,
    pub max_ram: u64,
    pub ram: Seq<RamMetricV>,
}

impl View for ServerResources {
    type V = ServerResourcesV;

    open spec fn view(&self) -> ServerResourcesV {
        ServerResourcesV {
            cpus: cpu_metric_views(self.cpus@),
            max_ram: self.max_ram,
            ram: ram_metric_views(self.ram@),
        }
    }
}

pub open spec fn spec_server_resources(j: Json) -> Option<ServerResourcesV> {
    let cpus = match member(j, "cpus"@) {
        Some(Json::Arr(a)) => cpu_metrics_of(a@),
        _ => None,
    };
    let max_ram = mem_u64(j, "max_ram"@);
    let ram = match member(j, "ram"@) {
        Some(Json::Arr(a)) => ram_metrics_of(a@),
        _ => None,
    };
    if cpus is Some && max_ram is Some && ram is Some {
        Some(ServerResourcesV { cpus: cpus->0, max_ram: max_ram->0, ram: ram->0 })
    } else {
        None
    }
}

impl ServerResources {
    pub fn decode(j: &Json) -> (r: Result<ServerResources, DecodeError>)
        ensures
            r matches Ok(v) ==> spec_server_resources(*j) == Some(v@),
            r is Err ==> spec_server_resources(*j) is None,
    {
        let cpus = decode_cpu_metrics(req_member(j, "cpus")?, "cpus")?;
        let max_ram = get_u64(j, "max_ram")?;
        let ram = decode_ram_metrics(req_member(j, "ram")?, "ram")?;
        Ok(ServerResources { cpus, max_ram, ram })
    }
}

} // verus!
