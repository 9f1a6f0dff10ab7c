//! Bookkeeping of the models installed on this host. Installing and removing
//! them with the local runtime happens outside; this keeps the record.
use vstd::prelude::*;
use crate::types::{InstalledLocalModel, ModelId};

verus! {

/// `ms` without the records of model `id`.
pub open spec fn others(ms: Seq<InstalledLocalModel>, id: Seq<char>) -> Seq<InstalledLocalModel>
    decreases ms.len(),
{
    if ms.len() == 0 {
        ms
    } else if ms.last().model_id.0@ == id {
        others(ms.drop_last(), id)
    } else {
        others(ms.drop_last(), id).push(ms.last())
    }
}

/// No two records of `ms` are for the same model.
pub open spec fn distinct_ids(ms: Seq<InstalledLocalModel>) -> bool {
    forall|i: int, j: int|
        0 <= i < j < ms.len() ==> (#[trigger] ms[i]).model_id.0@ != (#[trigger] ms[j]).model_id.0@
}

/// What `others` keeps: records of `ms` other than those of `id`, still with
/// distinct identifiers when those of `ms` are.
pub proof fn lemma_others(ms: Seq<InstalledLocalModel>, id: Seq<char>)
    ensures
        forall|k: int|
            0 <= k < others(ms, id).len() ==> ms.contains(#[trigger] others(ms, id)[k])
                && others(ms, id)[k].model_id.0@ != id,
        distinct_ids(ms) ==> distinct_ids(others(ms, id)),
    decreases ms.len(),
{
    if ms.len() > 0 {
        let rest = ms.drop_last();
        lemma_others(rest, id);
        let o = others(ms, id);
        let orest = others(rest, id);
        assert forall|k: int| 0 <= k < orest.len() implies ms.contains(#[trigger] orest[k]) by {
            let j = choose|j: int| 0 <= j < rest.len() && rest[j] == orest[k];
            assert(ms[j] == rest[j]);
        }
        if ms.last().model_id.0@ != id {
            assert(ms[ms.len() - 1] == ms.last());
            assert forall|k: int| 0 <= k < o.len() implies ms.contains(#[trigger] o[k])
                && o[k].model_id.0@ != id by {
                if k < orest.len() {
                    assert(o[k] == orest[k]);
                }
            }
            if distinct_ids(ms) {
                assert(distinct_ids(rest)) by {
                    assert forall|i: int, j: int| 0 <= i < j < rest.len() implies (
                    #[trigger] rest[i]).model_id.0@ != (#[trigger] rest[j]).model_id.0@ by {
                        assert(rest[i] == ms[i] && rest[j] == ms[j]);
                    }
                }
                assert forall|i: int, j: int| 0 <= i < j < o.len() implies (
                #[trigger] o[i]).model_id.0@ != (#[trigger] o[j]).model_id.0@ by {
                    if j == o.len() - 1 {
                        assert(o[i] == orest[i]);
                        assert(rest.contains(orest[i]));
                        let a = choose|a: int| 0 <= a < rest.len() && rest[a] == orest[i];
                        assert(ms[a] == rest[a]);
                        assert(o[j] == ms[ms.len() - 1]);
                    } else {
                        assert(o[i] == orest[i] && o[j] == orest[j]);
                    }
                }
            }
        } else {
            if distinct_ids(ms) {
                assert(distinct_ids(rest)) by {
                    assert forall|i: int, j: int| 0 <= i < j < rest.len() implies (
                    #[trigger] rest[i]).model_id.0@ != (#[trigger] rest[j]).model_id.0@ by {
                        assert(rest[i] == ms[i] && rest[j] == ms[j]);
                    }
                }
            }
        }
    }
}

/// A field-by-field copy of an installed-model record.
pub fn copy_installed(m: &InstalledLocalModel) -> (r: InstalledLocalModel)
    ensures
        r == *m,
{
    InstalledLocalModel {
        model_id: ModelId(m.model_id.0.clone()),
        install_path: m.install_path.clone(),
        is_running: m.is_running,
        port: m.port,
        runtime_type: m.runtime_type.clone(),
    }
}

/// The installed models, one record per model identifier, oldest first.
pub struct LocalModelManager {
    installed_models: Vec<InstalledLocalModel>,
}

/// The records of `ms` other than those of model `id`.
fn without_model(ms: &Vec<InstalledLocalModel>, id: &ModelId) -> (r: Vec<InstalledLocalModel>)
    ensures
        r@ == others(ms@, id.0@),
{
    let n = ms.len();
    let mut kept: Vec<InstalledLocalModel> = Vec::new();
    let mut i: usize = 0;
    while i < n
        invariant
            n == ms.len(),
            i <= n,
            kept@ == others(ms@.take(i as int), id.0@),
        decreases n - i,
    {
        assert(ms@.take(i as int + 1).drop_last() == ms@.take(i as int));
        let m = &ms[i];
        if m.model_id.0 != id.0 {
            kept.push(copy_installed(m));
        }
        i += 1;
    }
    assert(ms@.take(n as int) == ms@);
    kept
}

impl LocalModelManager {
    pub closed spec fn models(&self) -> Seq<InstalledLocalModel> {
        self.installed_models@
    }

    #[verifier::type_invariant]
    spec fn inv(&self) -> bool {
        distinct_ids(self.installed_models@)
    }

    pub fn new() -> (r: LocalModelManager)
        ensures
            r.models() == Seq::<InstalledLocalModel>::empty(),
    {
        LocalModelManager { installed_models: Vec::new() }
    }

    /// Forgets the model `model_id`.
    pub fn remove(&mut self, model_id: &ModelId)
        ensures
            final(self).models() == others(old(self).models(), model_id.0@),
    {
        proof {
            use_type_invariant(&*self);
            lemma_others(self.installed_models@, model_id.0@);
        }
        let kept = without_model(&self.installed_models, model_id);
        self.installed_models = kept;
    }

    /// Records `model` as installed, replacing an earlier record of the same model.
    pub fn record_installed(&mut self, model: InstalledLocalModel)
        ensures
            final(self).models() == others(old(self).models(), model.model_id.0@).push(model),
    {
        proof {
            use_type_invariant(&*self);
            lemma_others(self.installed_models@, model.model_id.0@);
        }
        let id = ModelId(model.model_id.0.clone());
        let mut kept = without_model(&self.installed_models, &id);
        let ghost before = kept@;
        kept.push(model);
        proof {
            assert forall|i: int, j: int| 0 <= i < j < kept@.len() implies (
            #[trigger] kept@[i]).model_id.0@ != (#[trigger] kept@[j]).model_id.0@ by {
                if j == kept@.len() - 1 {
                    assert(kept@[i] == before[i]);
                    assert(before[i].model_id.0@ != model.model_id.0@);
                } else {
                    assert(kept@[i] == before[i] && kept@[j] == before[j]);
                }
            }
        }
        self.installed_models = kept;
    }

    /// Copies of the installed-model records.
    pub fn get_installed_models(&self) -> (r: Vec<InstalledLocalModel>)
        ensures
            r@ == self.models(),
            distinct_ids(r@),
    {
        proof {
            use_type_invariant(&*self);
        }
        let n = self.installed_models.len();
        let mut out: Vec<InstalledLocalModel> = Vec::new();
        let mut i: usize = 0;
        while i < n
            invariant
                n == self.installed_models.len(),
                i <= n,
                out@ == self.installed_models@.take(i as int),
            decreases n - i,
        {
            out.push(copy_installed(&self.installed_models[i]));
            assert(out@ =~= self.installed_models@.take(i as int + 1));
            i += 1;
        }
        assert(self.installed_models@.take(n as int) =~= self.installed_models@);
        out
    }
}

} // verus!
