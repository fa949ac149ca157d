//! The vendor registry: an in-memory, append-only whitelist of payees.
//!
//! The registry is owned by the caller; a server shares it behind a lock of
//! its choosing. Insertion appends, listing returns a full snapshot, and
//! lookup is exact, case-sensitive equality on the wallet identifier.
use vstd::prelude::*;

verus! {

/// A registered payee: a ledger wallet address, a display name, an optional
/// contact address, and the ordered names of the services it offers.
#[derive(Debug, PartialEq, Eq)]
pub struct Vendor {
    pub wallet_id: String,
    pub name: String,
    pub address: String,
    pub services: Vec<String>,
}

/// The mathematical image of a vendor record: every field as a sequence.
pub ghost struct VendorView {
    pub wallet_id: Seq<char>,
    pub name: Seq<char>,
    pub address: Seq<char>,
    pub services: Seq<Seq<char>>,
}

impl View for Vendor {
    type V = VendorView;

    open spec fn view(&self) -> VendorView {
        VendorView {
            wallet_id: self.wallet_id@,
            name: self.name@,
            address: self.address@,
            services: self.services.deep_view(),
        }
    }
}

impl Vendor {
    /// A field-for-field copy of this record.
    pub fn duplicate(&self) -> (r: Vendor)
        ensures
            r@ == self@,
    {
        let mut services: Vec<String> = Vec::new();
        let mut i: usize = 0;
        while i < self.services.len()
            invariant
                i <= self.services.len(),
                services@.len() == i,
                forall|j: int| 0 <= j < i ==> services@[j] == self.services@[j],
            decreases self.services.len() - i,
        {
            services.push(self.services[i].clone());
            i = i + 1;
        }
        proof {
            assert(services.deep_view() =~= self.services.deep_view());
        }
        Vendor {
            wallet_id: self.wallet_id.clone(),
            name: self.name.clone(),
            address: self.address.clone(),
            services,
        }
    }
}

/// True when some record in `reg` has `w` as its wallet identifier.
pub open spec fn whitelisted(reg: Seq<VendorView>, w: Seq<char>) -> bool {
    exists|i: int| 0 <= i < reg.len() && reg[i].wallet_id == w
}

/// The whitelist of payees, in insertion order.
pub struct Registry {
    vendors: Vec<Vendor>,
}

impl View for Registry {
    type V = Seq<VendorView>;

    closed spec fn view(&self) -> Seq<VendorView> {
        self.vendors@.map_values(|v: Vendor| v@)
    }
}

impl Registry {
    /// An empty registry.
    pub fn new() -> (r: Registry)
        ensures
            r@ == Seq::<VendorView>::empty(),
    {
        let r = Registry { vendors: Vec::new() };
        proof {
            assert(r@ =~= Seq::<VendorView>::empty());
        }
        r
    }

    /// Appends `v` to the end of the registry. Never fails; the record is
    /// taken as given, with no validation and no duplicate check.
    pub fn insert(&mut self, v: Vendor)
        ensures
            final(self)@ == old(self)@.push(v@),
    {
        let ghost prev = self@;
        let ghost vv = v@;
        self.vendors.push(v);
        proof {
            assert(self@ =~= prev.push(vv));
        }
    }

    /// A full snapshot of the registry: every record, in insertion order,
    /// copied field for field.
    pub fn list(&self) -> (r: Vec<Vendor>)
        ensures
            r@.map_values(|v: Vendor| v@) == self@,
    {
        let mut out: Vec<Vendor> = Vec::new();
        let mut i: usize = 0;
        while i < self.vendors.len()
            invariant
                i <= self.vendors.len(),
                out@.len() == i,
                forall|j: int| 0 <= j < i ==> out@[j]@ == self.vendors@[j]@,
            decreases self.vendors.len() - i,
        {
            out.push(self.vendors[i].duplicate());
            i = i + 1;
        }
        proof {
            assert(out@.map_values(|v: Vendor| v@) =~= self@);
        }
        out
    }

    /// Whether some registered vendor has exactly this wallet identifier.
    pub fn contains(&self, wallet_id: &String) -> (r: bool)
        ensures
            r == whitelisted(self@, wallet_id@),
    {
        let mut i: usize = 0;
        while i < self.vendors.len()
            invariant
                i <= self.vendors.len(),
                forall|j: int| 0 <= j < i ==> self@[j].wallet_id != wallet_id@,
            decreases self.vendors.len() - i,
        {
            if self.vendors[i].wallet_id == *wallet_id {
                assert(self@[i as int].wallet_id == wallet_id@);
                return true;
            }
            i = i + 1;
        }
        false
    }
}

/// The registry contents after the records of `vs` are inserted, in order,
/// into a registry whose contents are `init`.
pub open spec fn after_inserts(init: Seq<VendorView>, vs: Seq<VendorView>) -> Seq<VendorView>
    decreases vs.len(),
{
    if vs.len() == 0 {
        init
    } else {
        after_inserts(init.push(vs[0]), vs.skip(1))
    }
}

/// A sequence of insertions appends its records, in order.
pub proof fn lemma_after_inserts_appends(init: Seq<VendorView>, vs: Seq<VendorView>)
    ensures
        after_inserts(init, vs) == init + vs,
    decreases vs.len(),
{
    if vs.len() == 0 {
        assert(after_inserts(init, vs) =~= init + vs);
    } else {
        lemma_after_inserts_appends(init.push(vs[0]), vs.skip(1));
        assert(init.push(vs[0]) + vs.skip(1) =~= init + vs);
    }
}

/// Law: a registry that starts empty and takes any sequence of insertions
/// lists exactly those records, in insertion order.
pub proof fn lemma_inserts_preserve_order(vs: Seq<VendorView>)
    ensures
        after_inserts(Seq::<VendorView>::empty(), vs) == vs,
{
    lemma_after_inserts_appends(Seq::<VendorView>::empty(), vs);
    assert(Seq::<VendorView>::empty() + vs =~= vs);
}

} // verus!
