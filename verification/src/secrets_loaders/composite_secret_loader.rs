use vstd::prelude::*;

use crate::secrets_loaders::traits::SecretLoader;
use crate::secrets_loaders::types::{fetch_fits, SecretFetch, SecretLoadError, SecretRef};

verus! {

/// Whether `i` is the first position in `loaders` whose loader handles `secret`.
pub open spec fn is_first_supporting(
    loaders: Seq<Box<dyn SecretLoader>>,
    secret: SecretRef,
    i: int,
) -> bool {
    &&& 0 <= i < loaders.len()
    &&& loaders[i].spec_supports(secret)
    &&& forall|j: int| 0 <= j < i ==> !(#[trigger] loaders[j]).spec_supports(secret)
}

/// Whether some loader in `loaders` handles `secret`.
pub open spec fn some_supports(loaders: Seq<Box<dyn SecretLoader>>, secret: SecretRef) -> bool {
    exists|i: int| 0 <= i < loaders.len() && (#[trigger] loaders[i]).spec_supports(secret)
}

/// What asking `loaders` in order for `secret` answers: the answer of the
/// first loader that handles it, or `UnsupportedSecretSource` where none does.
pub open spec fn first_supporting_load(
    loaders: Seq<Box<dyn SecretLoader>>,
    secret: SecretRef,
    fetched: SecretFetch,
) -> Result<Seq<char>, SecretLoadError> {
    if some_supports(loaders, secret) {
        let i = choose|i: int| is_first_supporting(loaders, secret, i);
        loaders[i].spec_load(secret, fetched)
    } else {
        Err(SecretLoadError::UnsupportedSecretSource)
    }
}

/// Asks a list of loaders in turn.
pub struct CompositeSecretLoader {
    loaders: Vec<Box<dyn SecretLoader>>,
}

impl CompositeSecretLoader {
    /// The loaders, in the order in which they are asked.
    pub closed spec fn loaders(&self) -> Seq<Box<dyn SecretLoader>> {
        self.loaders@
    }

    pub fn new(loaders: Vec<Box<dyn SecretLoader>>) -> (r: Self)
        ensures
            r.loaders() == loaders@,
    {
        Self { loaders }
    }
}

impl SecretLoader for CompositeSecretLoader {
    open spec fn spec_supports(&self, secret: SecretRef) -> bool {
        some_supports(self.loaders(), secret)
    }

    open spec fn spec_load(&self, secret: SecretRef, fetched: SecretFetch) -> Result<
        Seq<char>,
        SecretLoadError,
    > {
        first_supporting_load(self.loaders(), secret, fetched)
    }

    fn supports(&self, secret: &SecretRef) -> (r: bool) {
        let mut i: usize = 0;
        while i < self.loaders.len()
            invariant
                i <= self.loaders@.len(),
                forall|j: int| 0 <= j < i ==> !(#[trigger] self.loaders@[j]).spec_supports(*secret),
            decreases self.loaders@.len() - i,
        {
            if self.loaders[i].supports(secret) {
                return true;
            }
            i += 1;
        }
        false
    }

    fn load(&self, secret: &SecretRef, fetched: SecretFetch) -> (r: Result<String, SecretLoadError>) {
        let mut i: usize = 0;
        while i < self.loaders.len()
            invariant
                i <= self.loaders@.len(),
                fetch_fits(*secret, fetched),
                forall|j: int| 0 <= j < i ==> !(#[trigger] self.loaders@[j]).spec_supports(*secret),
            decreases self.loaders@.len() - i,
        {
            if self.loaders[i].supports(secret) {
                proof {
                    let k = choose|k: int| is_first_supporting(self.loaders@, *secret, k);
                    assert(is_first_supporting(self.loaders@, *secret, i as int));
                    if k < i {
                        assert(!self.loaders@[k].spec_supports(*secret));
                    } else if k > i {
                        assert(!self.loaders@[i as int].spec_supports(*secret));
                    }
                }
                return self.loaders[i].load(secret, fetched);
            }
            i += 1;
        }
        Err(SecretLoadError::UnsupportedSecretSource)
    }
}

} // verus!

verus! {

/// Law: a composite loader answers what the first of its loaders that handles
/// the secret answers, and `UnsupportedSecretSource` where none handles it.
pub proof fn law_composite_delegates(
    composite: &CompositeSecretLoader,
    secret: SecretRef,
    fetched: SecretFetch,
)
    ensures
        forall|i: int|
            is_first_supporting(composite.loaders(), secret, i) ==> composite.spec_load(
                secret,
                fetched,
            ) == (#[trigger] composite.loaders()[i]).spec_load(secret, fetched),
        !composite.spec_supports(secret) ==> composite.spec_load(secret, fetched) == Err::<
            Seq<char>,
            SecretLoadError,
        >(SecretLoadError::UnsupportedSecretSource),
{
    let loaders = composite.loaders();
    assert forall|i: int|
        is_first_supporting(loaders, secret, i) implies composite.spec_load(secret, fetched) == (
    #[trigger] loaders[i]).spec_load(secret, fetched) by {
        assert(some_supports(loaders, secret));
        let k = choose|k: int| is_first_supporting(loaders, secret, k);
        if k < i {
            assert(!loaders[k].spec_supports(secret));
        } else if k > i {
            assert(!loaders[i].spec_supports(secret));
        }
    }
}

/// Law: a composite loader handles a secret exactly when one of its loaders
/// does, and then there is a first such loader.
pub proof fn law_composite_supports(composite: &CompositeSecretLoader, secret: SecretRef)
    ensures
        composite.spec_supports(secret) <==> exists|i: int|
            0 <= i < composite.loaders().len() && (#[trigger] composite.loaders()[i]).spec_supports(
                secret,
            ),
        composite.spec_supports(secret) ==> exists|i: int|
            is_first_supporting(composite.loaders(), secret, i),
{
    let loaders = composite.loaders();
    if composite.spec_supports(secret) {
        let w = choose|i: int| 0 <= i < loaders.len() && (#[trigger] loaders[i]).spec_supports(secret);
        lemma_first_supporting_exists(loaders, secret, w);
    }
}

proof fn lemma_first_supporting_exists(
    loaders: Seq<Box<dyn SecretLoader>>,
    secret: SecretRef,
    w: int,
)
    requires
        0 <= w < loaders.len(),
        loaders[w].spec_supports(secret),
    ensures
        exists|i: int| is_first_supporting(loaders, secret, i),
    decreases w,
{
    if forall|j: int| 0 <= j < w ==> !(#[trigger] loaders[j]).spec_supports(secret) {
        assert(is_first_supporting(loaders, secret, w));
    } else {
        let j = choose|j: int| 0 <= j < w && (#[trigger] loaders[j]).spec_supports(secret);
        lemma_first_supporting_exists(loaders, secret, j);
    }
}

} // verus!
