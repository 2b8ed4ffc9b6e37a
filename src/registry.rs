use vstd::prelude::*;

use crate::error::VmError;

verus! {

/// The persisted description of one running VM.
#[derive(Debug)]
pub struct InstanceMetadata {
    pub id: u8,
    pub name: String,
    pub mode: String,
    pub guest_ip: String,
    pub host_ip: String,
    pub mac_address: String,
    pub tap_device: String,
    pub pid: u32,
}

/// The mathematical value of a VM record.
pub struct RecordView {
    pub id: u8,
    pub name: Seq<char>,
    pub mode: Seq<char>,
    pub guest_ip: Seq<char>,
    pub host_ip: Seq<char>,
    pub mac_address: Seq<char>,
    pub tap_device: Seq<char>,
    pub pid: u32,
}

impl View for InstanceMetadata {
    type V = RecordView;

    open spec fn view(&self) -> RecordView {
        RecordView {
            id: self.id,
            name: self.name@,
            mode: self.mode@,
            guest_ip: self.guest_ip@,
            host_ip: self.host_ip@,
            mac_address: self.mac_address@,
            tap_device: self.tap_device@,
            pid: self.pid,
        }
    }
}

impl InstanceMetadata {
    /// A copy equal in every field.
    pub fn duplicate(&self) -> (r: InstanceMetadata)
        ensures
            r@ == self@,
    {
        InstanceMetadata {
            id: self.id,
            name: self.name.clone(),
            mode: self.mode.clone(),
            guest_ip: self.guest_ip.clone(),
            host_ip: self.host_ip.clone(),
            mac_address: self.mac_address.clone(),
            tap_device: self.tap_device.clone(),
            pid: self.pid,
        }
    }
}

/// Largest VM id; ids run from 0 to this bound.
pub const MAX_VM_ID: u8 = 254;

/// Whether some record of `recs` carries `name`.
pub open spec fn has_name(recs: Seq<RecordView>, name: Seq<char>) -> bool {
    exists|i: int| 0 <= i < recs.len() && #[trigger] recs[i].name == name
}

/// Whether some record of `recs` carries `id`.
pub open spec fn id_in_use(recs: Seq<RecordView>, id: int) -> bool {
    exists|i: int| 0 <= i < recs.len() && #[trigger] recs[i].id == id
}

/// No two records share a name.
pub open spec fn names_unique(recs: Seq<RecordView>) -> bool {
    forall|i: int, j: int|
        0 <= i < recs.len() && 0 <= j < recs.len() && #[trigger] recs[i].name == #[trigger] recs[j].name
            ==> i == j
}

/// The position of a record of `recs` named `name` (meaningful when there is one).
pub open spec fn index_of(recs: Seq<RecordView>, name: Seq<char>) -> int {
    choose|i: int| 0 <= i < recs.len() && #[trigger] recs[i].name == name
}

/// The record of `recs` named `name`, when there is one.
pub open spec fn lookup(recs: Seq<RecordView>, name: Seq<char>) -> Option<RecordView> {
    if has_name(recs, name) {
        Some(recs[index_of(recs, name)])
    } else {
        None
    }
}

/// The records after saving `rec`: it replaces the record of its name, or is added last.
pub open spec fn saved(recs: Seq<RecordView>, rec: RecordView) -> Seq<RecordView> {
    if has_name(recs, rec.name) {
        recs.update(index_of(recs, rec.name), rec)
    } else {
        recs.push(rec)
    }
}

/// The records after deleting `name`: its record is gone, the others keep their order.
pub open spec fn deleted(recs: Seq<RecordView>, name: Seq<char>) -> Seq<RecordView> {
    if has_name(recs, name) {
        recs.remove(index_of(recs, name))
    } else {
        recs
    }
}

proof fn lemma_index_of_unique(recs: Seq<RecordView>, i: int)
    requires
        names_unique(recs),
        0 <= i < recs.len(),
    ensures
        has_name(recs, recs[i].name),
        index_of(recs, recs[i].name) == i,
{
    let n = recs[i].name;
    assert(has_name(recs, n));
    let j = index_of(recs, n);
    assert(recs[j].name == recs[i].name);
}

/// Saving a record and then looking up its name gives back that record, equal in every field.
pub proof fn lemma_save_then_load(recs: Seq<RecordView>, rec: RecordView)
    requires
        names_unique(recs),
    ensures
        names_unique(saved(recs, rec)),
        lookup(saved(recs, rec), rec.name) == Some(rec),
{
    let after = saved(recs, rec);
    if has_name(recs, rec.name) {
        let i = index_of(recs, rec.name);
        assert forall|a: int, b: int|
            0 <= a < after.len() && 0 <= b < after.len() && #[trigger] after[a].name
                == #[trigger] after[b].name implies a == b by {
            if a != i && b != i {
                assert(recs[a].name == recs[b].name);
            } else if a == i && b != i {
                assert(recs[b].name == recs[i].name);
            } else if a != i && b == i {
                assert(recs[a].name == recs[i].name);
            }
        }
        assert(after[i] == rec);
        lemma_index_of_unique(after, i);
    } else {
        let n = recs.len() as int;
        assert forall|a: int, b: int|
            0 <= a < after.len() && 0 <= b < after.len() && #[trigger] after[a].name
                == #[trigger] after[b].name implies a == b by {
            if a < n && b == n {
                assert(recs[a].name == rec.name);
            } else if b < n && a == n {
                assert(recs[b].name == rec.name);
            } else if a < n && b < n {
                assert(recs[a].name == recs[b].name);
            }
        }
        assert(after[n] == rec);
        lemma_index_of_unique(after, n);
    }
}

/// Deleting a name that no record carries leaves the records as they were; after any
/// delete, the name is absent.
pub proof fn lemma_delete_absent_is_noop(recs: Seq<RecordView>, name: Seq<char>)
    requires
        names_unique(recs),
    ensures
        !has_name(recs, name) ==> deleted(recs, name) == recs,
        lookup(deleted(recs, name), name) is None,
{
    if has_name(recs, name) {
        let i = index_of(recs, name);
        let after = deleted(recs, name);
        assert forall|k: int| 0 <= k < after.len() implies #[trigger] after[k].name != name by {
            if k < i {
                assert(after[k] == recs[k]);
            } else {
                assert(after[k] == recs[k + 1]);
            }
        }
    }
}

/// The lowest id in [0, MAX_VM_ID] that no record of `recs` carries.
pub open spec fn is_lowest_free_id(recs: Seq<RecordView>, id: int) -> bool {
    &&& 0 <= id <= MAX_VM_ID
    &&& !id_in_use(recs, id)
    &&& forall|j: int| 0 <= j < id ==> id_in_use(recs, j)
}

/// Whether every id in [0, MAX_VM_ID] is in use.
pub open spec fn all_ids_in_use(recs: Seq<RecordView>) -> bool {
    forall|j: int| 0 <= j <= MAX_VM_ID ==> id_in_use(recs, j)
}

/// The set of VM records, keyed by name.
pub struct Registry {
    records: Vec<InstanceMetadata>,
}

impl View for Registry {
    type V = Seq<RecordView>;

    closed spec fn view(&self) -> Seq<RecordView> {
        self.records@.map_values(|r: InstanceMetadata| r@)
    }
}

impl Registry {
    /// At most one record per name.
    pub open spec fn wf(&self) -> bool {
        names_unique(self@)
    }

    /// A registry without records.
    pub fn new() -> (r: Registry)
        ensures
            r.wf(),
            r@ == Seq::<RecordView>::empty(),
    {
        let r = Registry { records: Vec::new() };
        assert(r@ =~= Seq::<RecordView>::empty());
        r
    }

    /// Number of records.
    pub fn len(&self) -> (n: usize)
        ensures
            n == self@.len(),
    {
        self.records.len()
    }

    /// Position of the record named `name`.
    fn position(&self, name: &String) -> (r: Option<usize>)
        requires
            self.wf(),
        ensures
            r is None <==> !has_name(self@, name@),
            r matches Some(i) ==> i < self@.len() && self@[i as int].name == name@,
    {
        let mut i: usize = 0;
        while i < self.records.len()
            invariant
                i <= self.records.len(),
                self@.len() == self.records.len(),
                forall|k: int| 0 <= k < i ==> self@[k].name != name@,
            decreases self.records.len() - i,
        {
            assert(self@[i as int] == self.records[i as int]@);
            if self.records[i].name == *name {
                assert(self@[i as int].name == name@);
                return Some(i);
            }
            i = i + 1;
        }
        None
    }

    /// The record named `name`.
    pub fn load(&self, name: &String) -> (r: Result<InstanceMetadata, VmError>)
        requires
            self.wf(),
        ensures
            r is Ok <==> has_name(self@, name@),
            r matches Ok(rec) ==> lookup(self@, name@) == Some(rec@),
            r matches Err(e) ==> e is NotFound,
    {
        match self.position(name) {
            Some(i) => {
                assert(self@[i as int] == self.records[i as int]@);
                let rec = self.records[i].duplicate();
                proof {
                    lemma_index_of_unique(self@, i as int);
                }
                Ok(rec)
            },
            None => Err(VmError::NotFound { what: name.clone() }),
        }
    }

    /// Whether a record named `name` exists.
    pub fn contains(&self, name: &String) -> (r: bool)
        requires
            self.wf(),
        ensures
            r == has_name(self@, name@),
    {
        self.position(name).is_some()
    }

    /// Stores `rec`, replacing the record of the same name if there is one.
    pub fn save(&mut self, rec: InstanceMetadata)
        requires
            old(self).wf(),
        ensures
            final(self).wf(),
            final(self)@ == saved(old(self)@, rec@),
    {
        proof {
            lemma_save_then_load(self@, rec@);
        }
        match self.position(&rec.name) {
            Some(i) => {
                let ghost before = self@;
                self.records.set(i, rec);
                proof {
                    lemma_index_of_unique(before, i as int);
                    assert(self@ =~= before.update(i as int, rec@));
                    assert forall|a: int, b: int|
                        0 <= a < self@.len() && 0 <= b < self@.len() && #[trigger] self@[a].name
                            == #[trigger] self@[b].name implies a == b by {
                        if a != i && b != i {
                            assert(before[a].name == before[b].name);
                        } else if a == i && b != i {
                            assert(before[b].name == before[i as int].name);
                        } else if a != i && b == i {
                            assert(before[a].name == before[i as int].name);
                        }
                    }
                }
            },
            None => {
                let ghost before = self@;
                self.records.push(rec);
                proof {
                    assert(self@ =~= before.push(rec@));
                    assert forall|a: int, b: int|
                        0 <= a < self@.len() && 0 <= b < self@.len() && #[trigger] self@[a].name
                            == #[trigger] self@[b].name implies a == b by {
                        if a < before.len() && b == before.len() {
                            assert(before[a].name == rec@.name);
                        } else if b < before.len() && a == before.len() {
                            assert(before[b].name == rec@.name);
                        } else if a < before.len() && b < before.len() {
                            assert(before[a].name == before[b].name);
                        }
                    }
                }
            },
        }
    }

    /// Removes the record named `name`; does nothing when there is none.
    pub fn delete(&mut self, name: &String)
        requires
            old(self).wf(),
        ensures
            final(self).wf(),
            final(self)@ == deleted(old(self)@, name@),
    {
        match self.position(name) {
            Some(i) => {
                let ghost before = self@;
                self.records.remove(i);
                proof {
                    lemma_index_of_unique(before, i as int);
                    assert(self@ =~= before.remove(i as int));
                    assert forall|k: int| 0 <= k < self@.len() implies #[trigger] self@[k].name
                        != name@ by {
                        if k < i {
                            assert(self@[k] == before[k]);
                        } else {
                            assert(self@[k] == before[k + 1]);
                        }
                    }
                    assert forall|a: int, b: int|
                        0 <= a < self@.len() && 0 <= b < self@.len() && #[trigger] self@[a].name
                            == #[trigger] self@[b].name implies a == b by {
                        let a1 = if a < i { a } else { a + 1 };
                        let b1 = if b < i { b } else { b + 1 };
                        assert(self@[a] == before[a1]);
                        assert(self@[b] == before[b1]);
                    }
                }
            },
            None => {},
        }
    }

    /// Copies of all records, in order.
    pub fn list_all(&self) -> (r: Vec<InstanceMetadata>)
        ensures
            r@.map_values(|x: InstanceMetadata| x@) == self@,
    {
        let mut out: Vec<InstanceMetadata> = Vec::new();
        let mut i: usize = 0;
        while i < self.records.len()
            invariant
                i <= self.records.len(),
                self@.len() == self.records.len(),
                out@.len() == i,
                forall|k: int| 0 <= k < i ==> #[trigger] out@[k]@ == self@[k],
            decreases self.records.len() - i,
        {
            assert(self@[i as int] == self.records[i as int]@);
            out.push(self.records[i].duplicate());
            i = i + 1;
        }
        assert(out@.map_values(|x: InstanceMetadata| x@) =~= self@);
        out
    }

    /// Whether some record carries `id`.
    fn uses_id(&self, id: u8) -> (r: bool)
        ensures
            r == id_in_use(self@, id as int),
    {
        let mut i: usize = 0;
        while i < self.records.len()
            invariant
                i <= self.records.len(),
                self@.len() == self.records.len(),
                forall|k: int| 0 <= k < i ==> self@[k].id != id,
            decreases self.records.len() - i,
        {
            assert(self@[i as int] == self.records[i as int]@);
            if self.records[i].id == id {
                assert(self@[i as int].id == id);
                return true;
            }
            i = i + 1;
        }
        false
    }

    /// The lowest id in [0, MAX_VM_ID] that no record carries.
    pub fn allocate_id(&self) -> (r: Result<u8, VmError>)
        ensures
            r matches Ok(id) ==> is_lowest_free_id(self@, id as int),
            r is Err <==> all_ids_in_use(self@),
            r matches Err(e) ==> e is ResourceExhausted,
    {
        let mut id: u8 = 0;
        loop
            invariant
                id <= MAX_VM_ID,
                forall|j: int| 0 <= j < id ==> id_in_use(self@, j),
            decreases MAX_VM_ID - id,
        {
            if !self.uses_id(id) {
                return Ok(id);
            }
            if id == MAX_VM_ID {
                return Err(VmError::ResourceExhausted);
            }
            id = id + 1;
        }
    }
}

} // verus!

verus! {

/// The records known after reading entries in order, skipping those that could not be read;
/// a later record of a name replaces an earlier one.
pub open spec fn collected(entries: Seq<Option<RecordView>>) -> Seq<RecordView>
    decreases entries.len(),
{
    if entries.len() == 0 {
        Seq::empty()
    } else {
        let before = collected(entries.drop_last());
        match entries.last() {
            Some(r) => saved(before, r),
            None => before,
        }
    }
}

/// The value of each entry, `None` for one that could not be read.
pub open spec fn entry_views(entries: Seq<Option<InstanceMetadata>>) -> Seq<Option<RecordView>> {
    entries.map_values(
        |e: Option<InstanceMetadata>|
            match e {
                Some(r) => Some(r@),
                None => None,
            },
    )
}

impl Registry {
    /// The registry of the records read from storage; unreadable entries are skipped.
    pub fn from_entries(entries: Vec<Option<InstanceMetadata>>) -> (r: Registry)
        ensures
            r.wf(),
            r@ == collected(entry_views(entries@)),
    {
        let mut reg = Registry::new();
        let ghost views = entry_views(entries@);
        let n = entries.len();
        let mut i: usize = 0;
        while i < n
            invariant
                n == entries@.len(),
                n == views.len(),
                i <= n,
                views == entry_views(entries@),
                reg.wf(),
                reg@ == collected(views.take(i as int)),
            decreases n - i,
        {
            proof {
                assert(views.take(i + 1).drop_last() =~= views.take(i as int));
                assert(views.take(i + 1).last() == views[i as int]);
            }
            match &entries[i] {
                Some(rec) => {
                    reg.save(rec.duplicate());
                },
                None => {},
            }
            i = i + 1;
        }
        assert(views.take(n as int) =~= views);
        reg
    }
}

} // verus!
