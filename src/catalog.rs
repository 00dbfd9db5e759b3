//! The catalog: DSP demands, SSP and DSP placements, and their snapshots.
use vstd::prelude::*;
use crate::placements::{DspPlacement, Ssp, SspPlacement};

verus! {

/// A DSP the exchange can solicit.
pub struct Demand {
    /// Unique, assigned from 1 by the catalog.
    pub id: u64,
    pub name: String,
    /// The bid endpoint.
    pub url: String,
    /// Whether the DSP is enabled.
    pub status: bool,
    /// The DSP's own deadline in milliseconds.
    pub timeout: Option<u64>,
}

impl Demand {
    pub fn new(id: u64, name: &str, url: &str, status: bool, timeout: Option<u64>) -> (r: Demand)
        ensures
            r.id == id,
            r.name@ == name@,
            r.url@ == url@,
            r.status == status,
            r.timeout == timeout,
    {
        Demand { id, name: String::from_str(name), url: String::from_str(url), status, timeout }
    }

    /// An equal copy.
    pub fn duplicate(&self) -> (r: Demand)
        ensures
            r == *self,
    {
        Demand {
            id: self.id,
            name: self.name.clone(),
            url: self.url.clone(),
            status: self.status,
            timeout: self.timeout,
        }
    }
}

/// No two demands share an id.
pub open spec fn unique_ids(s: Seq<Demand>) -> bool {
    forall|i: int, j: int| 0 <= i < j < s.len() ==> s[i].id != s[j].id
}

/// `s` holds a demand with id `id`.
pub open spec fn has_id(s: Seq<Demand>, id: u64) -> bool {
    exists|i: int| 0 <= i < s.len() && s[i].id == id
}

/// The index of the demand with id `id`.
pub open spec fn index_of(s: Seq<Demand>, id: u64) -> int {
    choose|i: int| 0 <= i < s.len() && s[i].id == id
}

/// The enabled demands of `s`, in order.
pub open spec fn enabled(s: Seq<Demand>) -> Seq<Demand>
    decreases s.len(),
{
    if s.len() == 0 {
        s
    } else if s.last().status {
        enabled(s.drop_last()).push(s.last())
    } else {
        enabled(s.drop_last())
    }
}

/// The set of DSP demands, in the order they were added.
pub struct DemandManager {
    pub demands: Vec<Demand>,
}

impl DemandManager {
    /// No two demands share an id.
    pub open spec fn wf(&self) -> bool {
        unique_ids(self.demands@)
    }

    pub fn new() -> (r: DemandManager)
        ensures
            r.wf(),
            r.demands@.len() == 0,
    {
        DemandManager { demands: Vec::new() }
    }

    fn position(&self, demand_id: u64) -> (r: Option<usize>)
        requires
            self.wf(),
        ensures
            r is None <==> !has_id(self.demands@, demand_id),
            r matches Some(i) ==> i < self.demands@.len() && i == index_of(self.demands@, demand_id),
    {
        let mut i: usize = 0;
        while i < self.demands.len()
            invariant
                self.wf(),
                i <= self.demands@.len(),
                forall|j: int| 0 <= j < i ==> self.demands@[j].id != demand_id,
            decreases self.demands.len() - i,
        {
            if self.demands[i].id == demand_id {
                let ghost k = index_of(self.demands@, demand_id);
                assert(self.demands@[i as int].id == demand_id);
                assert(0 <= k < self.demands@.len() && self.demands@[k].id == demand_id);
                proof {
                    if k < i {
                        assert(self.demands@[k].id != self.demands@[i as int].id);
                    } else if k > i {
                        assert(self.demands@[i as int].id != self.demands@[k].id);
                    }
                }
                return Some(i);
            }
            i = i + 1;
        }
        None
    }

    /// Adds a demand, replacing the one with the same id if there is one.
    pub fn add_demand(&mut self, demand: Demand)
        requires
            old(self).wf(),
        ensures
            final(self).wf(),
            has_id(old(self).demands@, demand.id) ==> final(self).demands@ == old(
                self,
            ).demands@.update(index_of(old(self).demands@, demand.id), demand),
            !has_id(old(self).demands@, demand.id) ==> final(self).demands@ == old(
                self,
            ).demands@.push(demand),
    {
        match self.position(demand.id) {
            Some(i) => {
                self.demands.set(i, demand);
            },
            None => {
                self.demands.push(demand);
            },
        }
    }

    /// Removes the demand with id `demand_id`, if there is one.
    pub fn remove_demand(&mut self, demand_id: u64)
        requires
            old(self).wf(),
        ensures
            final(self).wf(),
            has_id(old(self).demands@, demand_id) ==> final(self).demands@ == old(
                self,
            ).demands@.remove(index_of(old(self).demands@, demand_id)),
            !has_id(old(self).demands@, demand_id) ==> final(self).demands@ == old(self).demands@,
    {
        match self.position(demand_id) {
            Some(i) => {
                self.demands.remove(i);
            },
            None => {},
        }
    }

    /// The demand with id `demand_id`, if there is one.
    pub fn get_demand(&self, demand_id: u64) -> (r: Option<&Demand>)
        requires
            self.wf(),
        ensures
            r is Some <==> has_id(self.demands@, demand_id),
            r matches Some(d) ==> *d == self.demands@[index_of(self.demands@, demand_id)]
                && d.id == demand_id,
    {
        match self.position(demand_id) {
            Some(i) => Some(&self.demands[i]),
            None => None,
        }
    }

    /// The enabled demands, in order.
    pub fn active_demands(&self) -> (r: Vec<Demand>)
        ensures
            r@ == enabled(self.demands@),
    {
        let mut out: Vec<Demand> = Vec::new();
        let mut i: usize = 0;
        while i < self.demands.len()
            invariant
                i <= self.demands@.len(),
                out@ == enabled(self.demands@.take(i as int)),
            decreases self.demands.len() - i,
        {
            assert(self.demands@.take(i + 1).drop_last() =~= self.demands@.take(i as int));
            if self.demands[i].status {
                out.push(self.demands[i].duplicate());
            }
            i = i + 1;
        }
        assert(self.demands@.take(i as int) =~= self.demands@);
        out
    }
}

/// Every demand of `enabled(s)` is enabled and one of `s`; as many as `s` has enabled.
pub proof fn lemma_enabled(s: Seq<Demand>)
    ensures
        forall|i: int| 0 <= i < enabled(s).len() ==> #[trigger] enabled(s)[i].status,
        enabled(s).len() <= s.len(),
    decreases s.len(),
{
    if s.len() > 0 {
        lemma_enabled(s.drop_last());
    }
}

/// A DSP's name by convention: its base name followed by `_dsp`.
pub fn demand_name(base: &str) -> (r: String)
    ensures
        r@ == base@ + "_dsp"@,
{
    let mut s = String::from_str(base);
    s.append("_dsp");
    s
}

/// The demand set built from drafts: ids 1, 2, ... in order, and, when no draft is enabled,
/// the first one enabled.
pub open spec fn numbered(drafts: Seq<Demand>) -> Seq<Demand> {
    let none_enabled = forall|k: int| 0 <= k < drafts.len() ==> !drafts[k].status;
    Seq::new(
        drafts.len(),
        |i: int|
            Demand {
                id: (i + 1) as u64,
                name: drafts[i].name,
                url: drafts[i].url,
                status: drafts[i].status || (i == 0 && none_enabled),
                timeout: drafts[i].timeout,
            },
    )
}

/// A demand set from drafts (their ids are ignored): ids are assigned 1, 2, ... in order, and
/// if no draft is enabled the first one is.
pub fn generate_demand_manager(drafts: Vec<Demand>) -> (r: DemandManager)
    requires
        drafts@.len() < u64::MAX,
    ensures
        r.wf(),
        r.demands@ == numbered(drafts@),
{
    let ghost d = drafts@;
    let mut any_enabled = false;
    let mut k: usize = 0;
    while k < drafts.len()
        invariant
            k <= drafts@.len(),
            any_enabled <==> exists|j: int| 0 <= j < k && drafts@[j].status,
        decreases drafts.len() - k,
    {
        if drafts[k].status {
            any_enabled = true;
        }
        k = k + 1;
    }
    let mut out: Vec<Demand> = Vec::new();
    let mut i: usize = 0;
    while i < drafts.len()
        invariant
            drafts@ == d,
            i <= d.len(),
            d.len() < u64::MAX,
            any_enabled <==> exists|j: int| 0 <= j < d.len() && d[j].status,
            out@ =~= numbered(d).take(i as int),
        decreases drafts.len() - i,
    {
        let status = drafts[i].status || (i == 0 && !any_enabled);
        out.push(
            Demand {
                id: (i + 1) as u64,
                name: drafts[i].name.clone(),
                url: drafts[i].url.clone(),
                status,
                timeout: drafts[i].timeout,
            },
        );
        i = i + 1;
    }
    assert(out@ =~= numbered(d));
    DemandManager { demands: out }
}

/// The exchange's configuration: the demand set and the two placement sets.
pub struct ConfigManager {
    pub demand_manager: DemandManager,
    pub ssp_placements: Vec<SspPlacement>,
    pub dsp_placements: Vec<DspPlacement>,
}

/// A copy of each element of `v`.
fn duplicate_ssp_placements(v: &Vec<SspPlacement>) -> (r: Vec<SspPlacement>)
    ensures
        r@ == v@,
{
    let mut out: Vec<SspPlacement> = Vec::new();
    let mut i: usize = 0;
    while i < v.len()
        invariant
            i <= v@.len(),
            out@ == v@.take(i as int),
        decreases v.len() - i,
    {
        out.push(v[i].duplicate());
        i = i + 1;
        assert(out@ =~= v@.take(i as int));
    }
    assert(v@.take(i as int) =~= v@);
    out
}

/// A copy of each element of `v`.
fn duplicate_dsp_placements(v: &Vec<DspPlacement>) -> (r: Vec<DspPlacement>)
    ensures
        r@ == v@,
{
    let mut out: Vec<DspPlacement> = Vec::new();
    let mut i: usize = 0;
    while i < v.len()
        invariant
            i <= v@.len(),
            out@ == v@.take(i as int),
        decreases v.len() - i,
    {
        out.push(v[i].duplicate());
        i = i + 1;
        assert(out@ =~= v@.take(i as int));
    }
    assert(v@.take(i as int) =~= v@);
    out
}

impl ConfigManager {
    pub fn new(demand_manager: DemandManager) -> (r: ConfigManager)
        ensures
            r.demand_manager == demand_manager,
            r.ssp_placements@.len() == 0,
            r.dsp_placements@.len() == 0,
    {
        ConfigManager { demand_manager, ssp_placements: Vec::new(), dsp_placements: Vec::new() }
    }

    /// The enabled demands, in order.
    pub fn active_demands(&self) -> (r: Vec<Demand>)
        ensures
            r@ == enabled(self.demand_manager.demands@),
    {
        self.demand_manager.active_demands()
    }

    /// The bid endpoints of the enabled demands, in order.
    pub fn active_dsp_urls(&self) -> (r: Vec<String>)
        ensures
            r@.len() == enabled(self.demand_manager.demands@).len(),
            forall|i: int|
                0 <= i < r@.len() ==> #[trigger] r@[i] == enabled(
                    self.demand_manager.demands@,
                )[i].url,
    {
        let active = self.demand_manager.active_demands();
        let mut out: Vec<String> = Vec::new();
        let mut i: usize = 0;
        while i < active.len()
            invariant
                i <= active@.len(),
                out@.len() == i,
                forall|j: int| 0 <= j < i ==> #[trigger] out@[j] == active@[j].url,
            decreases active.len() - i,
        {
            out.push(active[i].url.clone());
            i = i + 1;
        }
        out
    }

    /// A snapshot of the SSP placements.
    pub fn get_ssp_placements(&self) -> (r: Vec<SspPlacement>)
        ensures
            r@ == self.ssp_placements@,
    {
        duplicate_ssp_placements(&self.ssp_placements)
    }

    /// A snapshot of the DSP placements.
    pub fn get_dsp_placements(&self) -> (r: Vec<DspPlacement>)
        ensures
            r@ == self.dsp_placements@,
    {
        duplicate_dsp_placements(&self.dsp_placements)
    }

    /// Replaces both placement sets at once; the demands stay.
    pub fn update_placements(&mut self, ssp: Vec<SspPlacement>, dsp: Vec<DspPlacement>)
        ensures
            final(self).ssp_placements == ssp,
            final(self).dsp_placements == dsp,
            final(self).demand_manager == old(self).demand_manager,
    {
        self.ssp_placements = ssp;
        self.dsp_placements = dsp;
    }
}

/// The SSP list as the catalog file holds it.
pub struct SspInfoData(pub Vec<Ssp>);

/// Both placement sets, as loaded together.
pub struct PlacementsData {
    pub ssp_placements: Vec<SspPlacement>,
    pub dsp_placements: Vec<DspPlacement>,
}

/// Where the catalog files are.
pub struct FileConfigAdapter {
    pub ssp_placements_file: String,
    pub dsp_placements_file: String,
    pub ssp_info_file: String,
}

impl FileConfigAdapter {
    pub fn new(ssp_placements_file: &str, dsp_placements_file: &str, ssp_info_file: &str) -> (r:
        FileConfigAdapter)
        ensures
            r.ssp_placements_file@ == ssp_placements_file@,
            r.dsp_placements_file@ == dsp_placements_file@,
            r.ssp_info_file@ == ssp_info_file@,
    {
        FileConfigAdapter {
            ssp_placements_file: String::from_str(ssp_placements_file),
            dsp_placements_file: String::from_str(dsp_placements_file),
            ssp_info_file: String::from_str(ssp_info_file),
        }
    }
}

} // verus!
