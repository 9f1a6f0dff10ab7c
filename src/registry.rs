//! Named provider runners with one designated default.
//!
//! The registry is generic over the runner handle it stores: it decides
//! which runner a request goes to, and never calls one itself.
use vstd::prelude::*;
use crate::error::{ProviderError, ProviderErrorKind, ProviderId};
use crate::types::ModelId;

verus! {

#[derive(Debug, Clone, Copy, PartialEq, Eq, Structural)]
pub enum ProviderType {
    Local,
    Remote,
    Mock,
}

/// One registered provider.
pub struct ProviderEntry<R> {
    pub provider_id: ProviderId,
    pub runner: R,
    pub model_id: ModelId,
    pub provider_type: ProviderType,
}

/// The identifiers of a list of entries.
pub open spec fn entry_ids<R>(es: Seq<ProviderEntry<R>>) -> Seq<Seq<char>> {
    es.map_values(|e: ProviderEntry<R>| e.provider_id.0@)
}

/// The first position of `id` in `ids`, or -1.
pub open spec fn index_of(ids: Seq<Seq<char>>, id: Seq<char>) -> int
    decreases ids.len(),
{
    if ids.len() == 0 {
        -1
    } else if index_of(ids.drop_last(), id) >= 0 {
        index_of(ids.drop_last(), id)
    } else if ids.last() == id {
        ids.len() - 1
    } else {
        -1
    }
}

pub proof fn lemma_index_of(ids: Seq<Seq<char>>, id: Seq<char>)
    ensures
        -1 <= index_of(ids, id) < ids.len(),
        index_of(ids, id) >= 0 ==> ids[index_of(ids, id)] == id,
        index_of(ids, id) == -1 <==> !ids.contains(id),
        forall|j: int| 0 <= j < index_of(ids, id) ==> ids[j] != id,
    decreases ids.len(),
{
    if ids.len() > 0 {
        lemma_index_of(ids.drop_last(), id);
        if index_of(ids.drop_last(), id) == -1 && ids.last() != id {
            assert forall|j: int| 0 <= j < ids.len() implies ids[j] != id by {
                if j < ids.len() - 1 {
                    assert(ids[j] == ids.drop_last()[j]);
                }
            }
        }
        if index_of(ids.drop_last(), id) == -1 && ids.last() == id {
            assert forall|j: int| 0 <= j < ids.len() - 1 implies ids[j] != id by {
                assert(ids[j] == ids.drop_last()[j]);
            }
        }
        if index_of(ids.drop_last(), id) >= 0 {
            let k = index_of(ids.drop_last(), id);
            assert(ids[k] == ids.drop_last()[k]);
            assert forall|j: int| 0 <= j < k implies ids[j] != id by {
                assert(ids[j] == ids.drop_last()[j]);
            }
        }
    }
}

/// The registered providers, keyed by identifier, and the default one.
pub struct ProviderRegistry<R> {
    providers: Vec<ProviderEntry<R>>,
    default_provider: Option<ProviderId>,
}

impl<R> ProviderRegistry<R> {
    /// The entries, in order of first registration.
    pub closed spec fn entries(&self) -> Seq<ProviderEntry<R>> {
        self.providers@
    }

    /// The identifier of the default provider.
    pub closed spec fn default_id(&self) -> Option<Seq<char>> {
        match self.default_provider {
            Some(id) => Some(id.0@),
            None => None,
        }
    }

    pub open spec fn ids(&self) -> Seq<Seq<char>> {
        entry_ids(self.entries())
    }

    /// Identifiers are unique and the default, if any, is registered.
    pub closed spec fn wf(&self) -> bool {
        &&& forall|i: int, j: int|
            0 <= i < j < self.ids().len() ==> self.ids()[i] != self.ids()[j]
        &&& self.default_id() is Some ==> self.ids().contains(self.default_id()->0)
    }

    #[verifier::type_invariant]
    spec fn inv(&self) -> bool {
        self.wf()
    }

    pub fn new() -> (r: ProviderRegistry<R>)
        ensures
            r.entries() == Seq::<ProviderEntry<R>>::empty(),
            r.default_id() is None,
    {
        let r = ProviderRegistry { providers: Vec::new(), default_provider: None };
        assert(r.ids() =~= Seq::<Seq<char>>::empty());
        r
    }

    fn position(&self, id: &ProviderId) -> (r: Option<usize>)
        ensures
            match r {
                Some(i) => i == index_of(self.ids(), id.0@),
                None => index_of(self.ids(), id.0@) == -1,
            },
    {
        proof {
            lemma_index_of(self.ids(), id.0@);
        }
        let n = self.providers.len();
        let mut i: usize = 0;
        while i < n
            invariant
                n == self.providers.len(),
                i <= n,
                forall|j: int| 0 <= j < i ==> self.ids()[j] != id.0@,
                -1 <= index_of(self.ids(), id.0@) < self.ids().len(),
                index_of(self.ids(), id.0@) >= 0 ==> self.ids()[index_of(self.ids(), id.0@)]
                    == id.0@,
                index_of(self.ids(), id.0@) == -1 <==> !self.ids().contains(id.0@),
                forall|j: int|
                    0 <= j < index_of(self.ids(), id.0@) ==> self.ids()[j] != id.0@,
            decreases n - i,
        {
            assert(self.ids()[i as int] == self.providers[i as int].provider_id.0@);
            if self.providers[i].provider_id.0 == id.0 {
                return Some(i);
            }
            i += 1;
        }
        assert(!self.ids().contains(id.0@));
        None
    }

    /// Registers (or replaces) the provider `provider_id`; the first
    /// provider registered while there is no default becomes the default.
    pub fn register_provider(
        &mut self,
        provider_id: ProviderId,
        runner: R,
        model_id: ModelId,
        provider_type: ProviderType,
    )
        ensures
            index_of(old(self).ids(), provider_id.0@) >= 0 ==> final(self).entries() == old(
                self,
            ).entries().update(
                index_of(old(self).ids(), provider_id.0@),
                ProviderEntry { provider_id, runner, model_id, provider_type },
            ),
            index_of(old(self).ids(), provider_id.0@) == -1 ==> final(self).entries() == old(
                self,
            ).entries().push(ProviderEntry { provider_id, runner, model_id, provider_type }),
            final(self).default_id() == if old(self).default_id() is None {
                Some(provider_id.0@)
            } else {
                old(self).default_id()
            },
    {
        proof {
            use_type_invariant(&*self);
        }
        let ghost old_ids = self.ids();
        let ghost id_view = provider_id.0@;
        let pos = self.position(&provider_id);
        proof {
            lemma_index_of(old_ids, id_view);
        }
        let mut taken = ProviderRegistry::<R>::new();
        std::mem::swap(self, &mut taken);
        let ProviderRegistry { providers: mut providers, default_provider } = taken;
        let default_id = match default_provider {
            Some(d) => d,
            None => ProviderId(provider_id.0.clone()),
        };
        let entry = ProviderEntry { provider_id, runner, model_id, provider_type };
        match pos {
            Some(i) => {
                providers.set(i, entry);
                assert(entry_ids(providers@) =~= old_ids.update(i as int, id_view));
            },
            None => {
                providers.push(entry);
                assert(entry_ids(providers@) =~= old_ids.push(id_view));
            },
        }
        let ghost new_ids = entry_ids(providers@);
        proof {
            assert(new_ids.contains(id_view)) by {
                match pos {
                    Some(i) => assert(new_ids[i as int] == id_view),
                    None => assert(new_ids[old_ids.len() as int] == id_view),
                }
            }
            if old(self).default_id() is Some {
                let d = old(self).default_id()->0;
                let k = choose|k: int| 0 <= k < old_ids.len() && old_ids[k] == d;
                assert(new_ids[k] == d);
            }
        }
        *self = ProviderRegistry { providers, default_provider: Some(default_id) };
    }

    /// Makes `provider_id` the default, if it is registered.
    pub fn set_default(&mut self, provider_id: ProviderId)
        ensures
            final(self).entries() == old(self).entries(),
            final(self).default_id() == if old(self).ids().contains(provider_id.0@) {
                Some(provider_id.0@)
            } else {
                old(self).default_id()
            },
    {
        proof {
            use_type_invariant(&*self);
        }
        let pos = self.position(&provider_id);
        proof {
            lemma_index_of(self.ids(), provider_id.0@);
        }
        if pos.is_some() {
            self.default_provider = Some(provider_id);
        }
    }

    /// The runner registered as `provider_id`.
    pub fn get_runner(&self, provider_id: &ProviderId) -> (r: Option<&R>)
        ensures
            !self.ids().contains(provider_id.0@) ==> r is None,
            self.ids().contains(provider_id.0@) ==> r is Some && *r->0 == self.entries()[index_of(
                self.ids(),
                provider_id.0@,
            )].runner,
    {
        proof {
            use_type_invariant(&*self);
            lemma_index_of(self.ids(), provider_id.0@);
        }
        match self.position(provider_id) {
            Some(i) => Some(&self.providers[i].runner),
            None => None,
        }
    }

    /// The runner of the default provider.
    pub fn get_default_runner(&self) -> (r: Option<&R>)
        ensures
            self.default_id() is None ==> r is None,
            self.default_id() is Some ==> r is Some && *r->0 == self.entries()[index_of(
                self.ids(),
                self.default_id()->0,
            )].runner,
    {
        proof {
            use_type_invariant(&*self);
        }
        match &self.default_provider {
            Some(id) => {
                proof {
                    lemma_index_of(self.ids(), id.0@);
                }
                self.get_runner(id)
            },
            None => None,
        }
    }

    /// The runner that `execute_default` dispatches to, or the typed error
    /// for a registry without a default provider.
    pub fn default_runner_or_error(&self) -> (r: Result<&R, ProviderError>)
        ensures
            self.default_id() is Some ==> r is Ok && *r->Ok_0 == self.entries()[index_of(
                self.ids(),
                self.default_id()->0,
            )].runner,
            self.default_id() is None ==> r is Err && r->Err_0.kind == ProviderErrorKind::Internal(
                "no_default_provider",
            ) && r->Err_0.provider_id.0@ == "registry"@ && r->Err_0.user_message@
                == "No default provider configured"@,
    {
        match self.get_default_runner() {
            Some(runner) => Ok(runner),
            None => Err(
                ProviderError::new(
                    ProviderErrorKind::Internal("no_default_provider"),
                    ProviderId(String::from_str("registry")),
                    None,
                    "No default provider configured",
                ),
            ),
        }
    }

    /// Identifier, model and type of every provider, in registration order.
    pub fn list_providers(&self) -> (r: Vec<(ProviderId, ModelId, ProviderType)>)
        ensures
            r.len() == self.entries().len(),
            forall|i: int|
                0 <= i < r.len() ==> ((#[trigger] r[i]).0).0@ == self.entries()[i].provider_id.0@
                    && (r[i].1).0@ == self.entries()[i].model_id.0@ && r[i].2
                    == self.entries()[i].provider_type,
    {
        let n = self.providers.len();
        let mut out: Vec<(ProviderId, ModelId, ProviderType)> = Vec::new();
        let mut i: usize = 0;
        while i < n
            invariant
                n == self.providers.len(),
                i <= n,
                out.len() == i,
                forall|j: int|
                    0 <= j < i ==> ((#[trigger] out[j]).0).0@ == self.entries()[j].provider_id.0@
                        && (out[j].1).0@ == self.entries()[j].model_id.0@ && out[j].2
                        == self.entries()[j].provider_type,
            decreases n - i,
        {
            let e = &self.providers[i];
            out.push(
                (ProviderId(e.provider_id.0.clone()), ModelId(e.model_id.0.clone()), e.provider_type),
            );
            i += 1;
        }
        out
    }

    pub fn is_empty(&self) -> (r: bool)
        ensures
            r == (self.entries().len() == 0),
    {
        self.providers.len() == 0
    }
}

} // verus!
