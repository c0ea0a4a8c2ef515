//! What a run is configured with: the account's credentials and the domains
//! whose records are declared.

use vstd::prelude::*;
use crate::api_objects::{DnsRecord, DnsRecordView, records_clone};

verus! {

/// The account that every call is made for.
#[derive(Debug, PartialEq, Eq)]
pub struct Credentials {
    pub customernumber: i32,
    pub apikey: String,
    pub apipassword: String,
}

/// The mathematical value of [`Credentials`].
pub struct CredentialsView {
    pub customernumber: int,
    pub apikey: Seq<char>,
    pub apipassword: Seq<char>,
}

impl View for Credentials {
    type V = CredentialsView;

    open spec fn view(&self) -> CredentialsView {
        CredentialsView {
            customernumber: self.customernumber as int,
            apikey: self.apikey@,
            apipassword: self.apipassword@,
        }
    }
}

impl Clone for Credentials {
    fn clone(&self) -> (copy: Credentials)
        ensures
            copy == *self,
    {
        Credentials {
            customernumber: self.customernumber,
            apikey: self.apikey.clone(),
            apipassword: self.apipassword.clone(),
        }
    }
}

/// Whether no key occurs twice in a run of keyed entries.
pub open spec fn keys_distinct<T>(entries: Seq<(Seq<char>, T)>) -> bool {
    forall|i: int, j: int|
        0 <= i < j < entries.len() ==> (#[trigger] entries[i]).0 != (#[trigger] entries[j]).0
}

/// Says whether no key occurs twice in a run of keyed entries.
fn keys_are_distinct<T>(entries: &Vec<(String, T)>) -> (distinct: bool)
    ensures
        distinct == forall|i: int, j: int|
            0 <= i < j < entries@.len() ==> (#[trigger] entries@[i]).0@ != (
            #[trigger] entries@[j]).0@,
{
    let mut j: usize = 0;
    while j < entries.len()
        invariant
            0 <= j <= entries.len(),
            forall|a: int, b: int|
                0 <= a < b < j ==> (#[trigger] entries@[a]).0@ != (#[trigger] entries@[b]).0@,
        decreases entries.len() - j,
    {
        let mut i: usize = 0;
        while i < j
            invariant
                0 <= i <= j < entries.len(),
                forall|a: int| 0 <= a < i ==> (#[trigger] entries@[a]).0@ != entries@[j as int].0@,
            decreases j - i,
        {
            if entries[i].0 == entries[j].0 {
                return false;
            }
            i += 1;
        }
        j += 1;
    }
    true
}

/// One declared domain. `dns_records` holds the records under the keys the
/// declaration gave them, in the order of the declaration; a domain that
/// declares none is managed elsewhere and left alone.
#[derive(Debug, PartialEq, Eq)]
pub struct Domain {
    pub domain_name: String,
    pub dns_records: Option<Vec<(String, DnsRecord)>>,
}

/// The mathematical value of a [`Domain`].
pub struct DomainView {
    pub domain_name: Seq<char>,
    pub dns_records: Option<Seq<(Seq<char>, DnsRecordView)>>,
}

/// The values of a run of keyed records, one for one.
pub open spec fn keyed_records_view(entries: Seq<(String, DnsRecord)>) -> Seq<
    (Seq<char>, DnsRecordView),
> {
    Seq::new(entries.len(), |i: int| (entries[i].0@, entries[i].1@))
}

impl View for Domain {
    type V = DomainView;

    open spec fn view(&self) -> DomainView {
        DomainView {
            domain_name: self.domain_name@,
            dns_records: match self.dns_records {
                Some(entries) => Some(keyed_records_view(entries@)),
                None => None,
            },
        }
    }
}

impl DomainView {
    /// A domain is well formed if no two of its records stand under one key.
    pub open spec fn well_formed(self) -> bool {
        self.dns_records is Some ==> keys_distinct(self.dns_records->0)
    }

    /// The declared records without their keys, in declared order: the set
    /// that a synchronisation pushes.
    pub open spec fn declared(self) -> Seq<DnsRecordView>
        recommends
            self.dns_records is Some,
    {
        Seq::new(self.dns_records->0.len(), |i: int| self.dns_records->0[i].1)
    }
}

impl Domain {
    /// Says whether the domain is well formed.
    pub fn is_well_formed(&self) -> (well_formed: bool)
        ensures
            well_formed == self@.well_formed(),
    {
        match &self.dns_records {
            Some(entries) => {
                let distinct = keys_are_distinct(entries);
                proof {
                    let keyed = keyed_records_view(entries@);
                    if distinct {
                        assert forall|i: int, j: int| 0 <= i < j < keyed.len() implies (
                        #[trigger] keyed[i]).0 != (#[trigger] keyed[j]).0 by {
                            assert(entries@[i].0@ != entries@[j].0@);
                        }
                    } else {
                        let (i, j) = choose|i: int, j: int|
                            0 <= i < j < entries@.len() && (#[trigger] entries@[i]).0@ == (
                            #[trigger] entries@[j]).0@;
                        assert(keyed[i].0 == keyed[j].0);
                    }
                }
                distinct
            },
            None => true,
        }
    }

    /// Copies of the declared records, in declared order, under their keys.
    pub fn records(&self) -> (copy: Option<Vec<(String, DnsRecord)>>)
        ensures
            copy is Some == self.dns_records is Some,
            copy is Some ==> copy->0@ == self.dns_records->0@,
    {
        match &self.dns_records {
            Some(entries) => Some(records_clone(entries)),
            None => None,
        }
    }
}

/// The whole configuration. `domains` holds the declared domains under their
/// keys, in the order of the declaration.
#[derive(Debug, PartialEq, Eq)]
pub struct Configuration {
    pub credentials: Credentials,
    pub domains: Vec<(String, Domain)>,
}

/// The mathematical value of a [`Configuration`].
pub struct ConfigurationView {
    pub credentials: CredentialsView,
    pub domains: Seq<(Seq<char>, DomainView)>,
}

/// The values of a run of keyed domains, one for one.
pub open spec fn keyed_domains_view(entries: Seq<(String, Domain)>) -> Seq<(Seq<char>, DomainView)> {
    Seq::new(entries.len(), |i: int| (entries[i].0@, entries[i].1@))
}

impl View for Configuration {
    type V = ConfigurationView;

    open spec fn view(&self) -> ConfigurationView {
        ConfigurationView {
            credentials: self.credentials@,
            domains: keyed_domains_view(self.domains@),
        }
    }
}

impl ConfigurationView {
    /// A configuration is well formed if no two of its domains stand under
    /// one key and every domain is well formed. Keys are the names that the
    /// declaration gives; two keys may stand for one domain name.
    pub open spec fn well_formed(self) -> bool {
        &&& keys_distinct(self.domains)
        &&& forall|i: int| 0 <= i < self.domains.len() ==> (#[trigger] self.domains[i]).1.well_formed()
    }
}

impl Configuration {
    /// Says whether the configuration is well formed.
    pub fn is_well_formed(&self) -> (well_formed: bool)
        ensures
            well_formed == self@.well_formed(),
    {
        let ghost keyed = keyed_domains_view(self.domains@);
        let distinct = keys_are_distinct(&self.domains);
        proof {
            if distinct {
                assert forall|i: int, j: int| 0 <= i < j < keyed.len() implies (
                #[trigger] keyed[i]).0 != (#[trigger] keyed[j]).0 by {
                    assert(self.domains@[i].0@ != self.domains@[j].0@);
                }
            } else {
                let (i, j) = choose|i: int, j: int|
                    0 <= i < j < self.domains@.len() && (#[trigger] self.domains@[i]).0@ == (
                    #[trigger] self.domains@[j]).0@;
                assert(keyed[i].0 == keyed[j].0);
            }
        }
        if !distinct {
            return false;
        }
        let mut k: usize = 0;
        while k < self.domains.len()
            invariant
                0 <= k <= self.domains.len(),
                keyed == keyed_domains_view(self.domains@),
                keys_distinct(keyed),
                forall|i: int| 0 <= i < k ==> (#[trigger] keyed[i]).1.well_formed(),
            decreases self.domains.len() - k,
        {
            let ok = self.domains[k].1.is_well_formed();
            assert(keyed[k as int].1 == self.domains@[k as int].1@);
            if !ok {
                return false;
            }
            k += 1;
        }
        true
    }
}

} // verus!
