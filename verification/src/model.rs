//! The facade: the one owner of a loader handle.

use crate::config::{AOTIModelBuilder, ModelConfig, ModelConfigView};
use crate::error::AOTIModelError;
use crate::metadata::{
    entries_to_map, entries_view, lemma_every_key_is_kept, map_view, normalized, Metadata,
    MetadataEntry,
};
use crate::tensor::{adopted_from, borrowed_from, owned_to_tensors, tensors_to_ptrs};
use vstd::prelude::*;

verus! {

/// A loaded model, ready for inference: the exclusive owner of the loader
/// handle `L`. The handle is present from construction until it is
/// released; every call on the facade checks for it first.
#[derive(Debug)]
pub struct AOTIModel<L> {
    inner: Option<L>,
}

impl<L> View for AOTIModel<L> {
    type V = Option<L>;

    closed spec fn view(&self) -> Option<L> {
        self.inner
    }
}

/// Whether `ran` is what a run ends in when the boundary call came back
/// with `outcome`: on success one host tensor for each owned handle, in
/// order, as `adopt` makes them; on failure the native failure with its
/// message unchanged.
pub open spec fn is_run_result<O, T, A: Fn(O) -> T>(
    outcome: Result<Vec<O>, String>,
    adopt: A,
    ran: Result<Vec<T>, AOTIModelError>,
) -> bool {
    match outcome {
        Ok(owned) => ran is Ok && adopted_from(owned@, adopt, ran->Ok_0@),
        Err(what) => ran == Err::<Vec<T>, AOTIModelError>(AOTIModelError::Cxx(what)),
    }
}

/// Whether `metadata` is what a metadata query ends in when the boundary
/// call came back with `outcome`: on success the mapping that the entries
/// normalise to; on failure the same failure.
pub open spec fn is_metadata_result<E>(
    outcome: Result<Vec<MetadataEntry>, E>,
    metadata: Result<Metadata, E>,
) -> bool {
    match outcome {
        Ok(entries) => metadata is Ok && map_view(metadata->Ok_0) == normalized(
            entries_view(entries@),
        ),
        Err(failure) => metadata == Err::<Metadata, E>(failure),
    }
}

/// Ends a run: turns the owned handles of a successful boundary call into
/// host tensors, or wraps its failure.
pub fn finish_run<O, T, A: Fn(O) -> T>(
    outcome: Result<Vec<O>, String>,
    adopt: A,
) -> (ran: Result<Vec<T>, AOTIModelError>)
    requires
        outcome is Ok ==> forall|i: int|
            0 <= i < outcome->Ok_0@.len() ==> adopt.requires((#[trigger] outcome->Ok_0@[i],)),
    ensures
        is_run_result(outcome, adopt, ran),
{
    match outcome {
        Ok(owned) => Ok(owned_to_tensors(owned, adopt)),
        Err(what) => Err(AOTIModelError::Cxx(what)),
    }
}

/// Ends a metadata query: normalises the entries of a successful boundary
/// call into a mapping, or hands its failure on.
pub fn finish_metadata<E>(outcome: Result<Vec<MetadataEntry>, E>) -> (metadata: Result<Metadata, E>)
    ensures
        is_metadata_result(outcome, metadata),
{
    match outcome {
        Ok(entries) => Ok(entries_to_map(entries)),
        Err(failure) => Err(failure),
    }
}

impl<L> AOTIModel<L> {
    /// Takes ownership of a handle that a construct call returned.
    pub fn from_handle(handle: L) -> (model: Self)
        ensures
            model@ == Some(handle),
    {
        AOTIModel { inner: Some(handle) }
    }

    /// The outcome of the construct call that `built` was made from: the
    /// handle that the facade owns, or the failure.
    pub open spec fn construct_outcome(built: Result<Self, String>) -> Result<L, String> {
        match built {
            Ok(model) => Ok(model@->Some_0),
            Err(what) => Err(what),
        }
    }

    /// Loads the package at `model_package_path` with the default settings.
    pub fn load<F>(model_package_path: &str, construct: F) -> (loaded: Result<Self, String>) where
        F: FnOnce(ModelConfig) -> Result<L, String>,

        requires
            forall|config: ModelConfig|
                config@ == ModelConfigView::default_for(model_package_path@)
                    ==> construct.requires((config,)),
        ensures
            loaded is Ok ==> loaded->Ok_0@ is Some,
            exists|config: ModelConfig|
                config@ == ModelConfigView::default_for(model_package_path@)
                    && #[trigger] construct.ensures((config,), Self::construct_outcome(loaded)),
    {
        let builder = AOTIModelBuilder::new(model_package_path);
        let ghost config = builder.config();
        let loaded = builder.build(construct);
        assert(construct.ensures((config,), Self::construct_outcome(loaded)));
        loaded
    }

    /// A builder for more control over the loading options.
    pub fn builder(model_package_path: &str) -> (builder: AOTIModelBuilder)
        ensures
            builder@ == ModelConfigView::default_for(model_package_path@),
    {
        AOTIModelBuilder::new(model_package_path)
    }

    /// Whether the facade holds a loader handle.
    pub fn is_loaded(&self) -> (loaded: bool)
        ensures
            loaded == (self@ is Some),
    {
        self.inner.is_some()
    }

    /// Gives up the loader handle. The caller gets it, to destroy it; the
    /// facade holds none from then on.
    pub fn release(&mut self) -> (handle: Option<L>)
        ensures
            handle == old(self)@,
            final(self)@ is None,
    {
        self.inner.take()
    }

    /// The handle, borrowed for one boundary call, if there is one.
    fn pin_inner(&mut self) -> (pinned: Option<&mut L>)
        ensures
            pinned is Some <==> old(self)@ is Some,
            pinned is Some ==> *pinned->Some_0 == old(self)@->Some_0 && final(self)@ == Some(
                *final(pinned->Some_0),
            ),
            pinned is None ==> final(self)@ is None,
    {
        self.inner.as_mut()
    }

    /// The handle, borrowed for one boundary call, or the error that says
    /// that there is none.
    fn try_pin_inner(&mut self) -> (pinned: Result<&mut L, AOTIModelError>)
        ensures
            pinned is Ok <==> old(self)@ is Some,
            pinned is Ok ==> *pinned->Ok_0 == old(self)@->Some_0 && final(self)@ == Some(
                *final(pinned->Ok_0),
            ),
            pinned is Err ==> pinned->Err_0 == AOTIModelError::InnerNone && final(self)@ is None,
    {
        match self.pin_inner() {
            Some(handle) => Ok(handle),
            None => Err(AOTIModelError::InnerNone),
        }
    }

    /// Runs inference. Checks that the handle is present, makes one
    /// borrowed reference for each input, makes the boundary call on the
    /// handle with them, and turns each owned handle that comes back into
    /// a host tensor.
    pub fn run<T, P, O, B, C, A>(&mut self, inputs: &[T], borrow: B, call: C, adopt: A) -> (ran:
        Result<Vec<T>, AOTIModelError>) where
        B: Fn(&T) -> P,
        C: FnOnce(&mut L, &Vec<P>) -> Result<Vec<O>, String>,
        A: Fn(O) -> T,

        requires
            forall|i: int| 0 <= i < inputs@.len() ==> borrow.requires((&#[trigger] inputs@[i],)),
            forall|handle: &mut L, refs: &Vec<P>|
                *handle == old(self)@->Some_0 && borrowed_from(inputs@, borrow, refs@)
                    ==> #[trigger] call.requires((handle, refs)),
            forall|handle: &mut L, refs: &Vec<P>, owned: Vec<O>, i: int|
                #[trigger] call.ensures((handle, refs), Ok(owned)) && 0 <= i < owned@.len()
                    ==> adopt.requires((#[trigger] owned@[i],)),
        ensures
            old(self)@ is None ==> ran == Err::<Vec<T>, AOTIModelError>(AOTIModelError::InnerNone)
                && final(self)@ is None,
            old(self)@ is Some ==> final(self)@ is Some && exists|
                handle: &mut L,
                refs: Vec<P>,
                outcome: Result<Vec<O>, String>,
            |
                {
                    &&& *handle == old(self)@->Some_0
                    &&& *final(handle) == final(self)@->Some_0
                    &&& borrowed_from(inputs@, borrow, refs@)
                    &&& #[trigger] call.ensures((handle, &refs), outcome)
                    &&& is_run_result(outcome, adopt, ran)
                },
    {
        match self.try_pin_inner() {
            Err(absent) => Err(absent),
            Ok(handle) => {
                let refs = tensors_to_ptrs(inputs, borrow);
                let ghost before = *handle;
                let outcome = call(handle, &refs);
                let ghost seen = outcome;
                let ghost after = *handle;
                let ghost witness = choose|w: &mut L|
                    *w == before && *final(w) == after && #[trigger] call.ensures(
                        (w, &refs),
                        seen,
                    );
                assert(*witness == before && *final(witness) == after && call.ensures(
                    (witness, &refs),
                    seen,
                ));
                let ran = finish_run(outcome, adopt);
                assert(is_run_result(seen, adopt, ran));
                ran
            },
        }
    }

    /// Runs inference as `run` does, with a boundary call that may consume
    /// or change the borrowed references in place. What the references
    /// hold after the call is left open.
    pub fn boxed_run<T, P, O, B, C, A>(
        &mut self,
        inputs: &[T],
        borrow: B,
        call: C,
        adopt: A,
    ) -> (ran: Result<Vec<T>, AOTIModelError>) where
        B: Fn(&T) -> P,
        C: FnOnce(&mut L, &mut Vec<P>) -> Result<Vec<O>, String>,
        A: Fn(O) -> T,

        requires
            forall|i: int| 0 <= i < inputs@.len() ==> borrow.requires((&#[trigger] inputs@[i],)),
            forall|handle: &mut L, refs: &mut Vec<P>|
                *handle == old(self)@->Some_0 && borrowed_from(inputs@, borrow, (*refs)@)
                    ==> #[trigger] call.requires((handle, refs)),
            forall|handle: &mut L, refs: &mut Vec<P>, owned: Vec<O>, i: int|
                #[trigger] call.ensures((handle, refs), Ok(owned)) && 0 <= i < owned@.len()
                    ==> adopt.requires((#[trigger] owned@[i],)),
        ensures
            old(self)@ is None ==> ran == Err::<Vec<T>, AOTIModelError>(AOTIModelError::InnerNone)
                && final(self)@ is None,
            old(self)@ is Some ==> final(self)@ is Some && exists|
                handle: &mut L,
                refs: &mut Vec<P>,
                outcome: Result<Vec<O>, String>,
            |
                {
                    &&& *handle == old(self)@->Some_0
                    &&& *final(handle) == final(self)@->Some_0
                    &&& borrowed_from(inputs@, borrow, (*refs)@)
                    &&& #[trigger] call.ensures((handle, refs), outcome)
                    &&& is_run_result(outcome, adopt, ran)
                },
    {
        match self.try_pin_inner() {
            Err(absent) => Err(absent),
            Ok(handle) => {
                let mut refs = tensors_to_ptrs(inputs, borrow);
                let ghost before = *handle;
                let ghost given = refs;
                let outcome = call(handle, &mut refs);
                let ghost seen = outcome;
                let ghost after = *handle;
                let ghost witness = choose|w: &mut L, r: &mut Vec<P>|
                    *w == before && *final(w) == after && *r == given && #[trigger] call.ensures(
                        (w, r),
                        seen,
                    );
                assert(*witness.0 == before && *final(witness.0) == after && *witness.1 == given
                    && call.ensures((witness.0, witness.1), seen));
                let ran = finish_run(outcome, adopt);
                assert(is_run_result(seen, adopt, ran));
                ran
            },
        }
    }

    /// Makes a boundary call that takes the handle alone, after the check
    /// that the handle is present.
    fn delegate<V, C>(&mut self, call: C) -> (got: Result<V, AOTIModelError>) where
        C: FnOnce(&mut L) -> Result<V, String>,

        requires
            forall|handle: &mut L|
                *handle == old(self)@->Some_0 ==> #[trigger] call.requires((handle,)),
        ensures
            old(self)@ is None ==> got == Err::<V, AOTIModelError>(AOTIModelError::InnerNone)
                && final(self)@ is None,
            old(self)@ is Some ==> final(self)@ is Some && exists|
                handle: &mut L,
                outcome: Result<V, String>,
            |
                {
                    &&& *handle == old(self)@->Some_0
                    &&& *final(handle) == final(self)@->Some_0
                    &&& #[trigger] call.ensures((handle,), outcome)
                    &&& got == AOTIModelError::lifted(outcome)
                },
    {
        match self.try_pin_inner() {
            Err(absent) => Err(absent),
            Ok(handle) => {
                let ghost before = *handle;
                let outcome = call(handle);
                let ghost seen = outcome;
                let ghost after = *handle;
                let ghost witness = choose|w: &mut L|
                    *w == before && *final(w) == after && #[trigger] call.ensures((w,), seen);
                assert(*witness == before && *final(witness) == after && call.ensures(
                    (witness,),
                    seen,
                ));
                AOTIModelError::lift(outcome)
            },
        }
    }

    /// The metadata of the model, as a mapping from key to value.
    pub fn get_metadata<C>(&mut self, call: C) -> (metadata: Result<Metadata, AOTIModelError>) where
        C: FnOnce(&mut L) -> Result<Vec<MetadataEntry>, String>,

        requires
            forall|handle: &mut L|
                *handle == old(self)@->Some_0 ==> #[trigger] call.requires((handle,)),
        ensures
            old(self)@ is None ==> metadata == Err::<Metadata, AOTIModelError>(
                AOTIModelError::InnerNone,
            ) && final(self)@ is None,
            old(self)@ is Some ==> final(self)@ is Some && exists|
                handle: &mut L,
                outcome: Result<Vec<MetadataEntry>, String>,
            |
                {
                    &&& *handle == old(self)@->Some_0
                    &&& *final(handle) == final(self)@->Some_0
                    &&& #[trigger] call.ensures((handle,), outcome)
                    &&& is_metadata_result(AOTIModelError::lifted(outcome), metadata)
                },
    {
        finish_metadata(self.delegate(call))
    }

    /// The call specification of the model: the texts that the boundary
    /// call returned, in their order.
    pub fn get_call_spec<C>(&mut self, call: C) -> (spec: Result<Vec<String>, AOTIModelError>) where
        C: FnOnce(&mut L) -> Result<Vec<String>, String>,

        requires
            forall|handle: &mut L|
                *handle == old(self)@->Some_0 ==> #[trigger] call.requires((handle,)),
        ensures
            old(self)@ is None ==> spec == Err::<Vec<String>, AOTIModelError>(
                AOTIModelError::InnerNone,
            ) && final(self)@ is None,
            old(self)@ is Some ==> final(self)@ is Some && exists|
                handle: &mut L,
                outcome: Result<Vec<String>, String>,
            |
                {
                    &&& *handle == old(self)@->Some_0
                    &&& *final(handle) == final(self)@->Some_0
                    &&& #[trigger] call.ensures((handle,), outcome)
                    &&& spec == AOTIModelError::lifted(outcome)
                },
    {
        self.delegate(call)
    }

    /// The fully qualified names of the constants of the model: the texts
    /// that the boundary call returned, in their order.
    pub fn get_constant_fqns<C>(&mut self, call: C) -> (names: Result<Vec<String>, AOTIModelError>) where
        C: FnOnce(&mut L) -> Result<Vec<String>, String>,

        requires
            forall|handle: &mut L|
                *handle == old(self)@->Some_0 ==> #[trigger] call.requires((handle,)),
        ensures
            old(self)@ is None ==> names == Err::<Vec<String>, AOTIModelError>(
                AOTIModelError::InnerNone,
            ) && final(self)@ is None,
            old(self)@ is Some ==> final(self)@ is Some && exists|
                handle: &mut L,
                outcome: Result<Vec<String>, String>,
            |
                {
                    &&& *handle == old(self)@->Some_0
                    &&& *final(handle) == final(self)@->Some_0
                    &&& #[trigger] call.ensures((handle,), outcome)
                    &&& names == AOTIModelError::lifted(outcome)
                },
    {
        self.delegate(call)
    }

    /// The metadata of a package, read without a loader: no facade is
    /// needed, and none is made.
    pub fn load_metadata_from_package<C>(
        model_package_path: &str,
        model_name: &str,
        call: C,
    ) -> (metadata: Result<Metadata, String>) where
        C: FnOnce(&str, &str) -> Result<Vec<MetadataEntry>, String>,

        requires
            call.requires((model_package_path, model_name)),
        ensures
            exists|outcome: Result<Vec<MetadataEntry>, String>|
                #[trigger] call.ensures((model_package_path, model_name), outcome)
                    && is_metadata_result(outcome, metadata),
    {
        finish_metadata(call(model_package_path, model_name))
    }
}

/// `run` and `boxed_run` end alike. Where the boundary calls of both come
/// back with the same outcome, and the conversion gives one tensor for one
/// handle, both end in the same tensors, or in the same failure.
pub proof fn lemma_run_and_boxed_run_agree<O, T, A: Fn(O) -> T>(
    outcome: Result<Vec<O>, String>,
    adopt: A,
    ran: Result<Vec<T>, AOTIModelError>,
    boxed_ran: Result<Vec<T>, AOTIModelError>,
)
    requires
        is_run_result(outcome, adopt, ran),
        is_run_result(outcome, adopt, boxed_ran),
        forall|owned: O, s: T, t: T|
            #[trigger] adopt.ensures((owned,), s) && #[trigger] adopt.ensures((owned,), t) ==> s
                == t,
    ensures
        match ran {
            Ok(tensors) => boxed_ran is Ok && boxed_ran->Ok_0@ == tensors@,
            Err(failure) => boxed_ran == Err::<Vec<T>, AOTIModelError>(failure),
        },
{
    if let Ok(owned) = outcome {
        let a = ran->Ok_0@;
        let b = boxed_ran->Ok_0@;
        assert forall|i: int| 0 <= i < a.len() implies a[i] == b[i] by {
            assert(adopt.ensures((owned@[i],), a[i]));
            assert(adopt.ensures((owned@[i],), b[i]));
        }
        assert(a =~= b);
    }
}

/// A metadata query keeps every key that the boundary call reported.
pub proof fn lemma_metadata_keeps_keys<E>(
    outcome: Result<Vec<MetadataEntry>, E>,
    metadata: Result<Metadata, E>,
    i: int,
)
    requires
        is_metadata_result(outcome, metadata),
        outcome is Ok,
        0 <= i < outcome->Ok_0@.len(),
    ensures
        metadata is Ok,
        map_view(metadata->Ok_0).contains_key(outcome->Ok_0@[i].key@),
{
    lemma_every_key_is_kept(entries_view(outcome->Ok_0@), i);
}

/// Metadata read from a package without a loader equals the metadata read
/// through a loader, where both boundary calls report the same entries.
pub proof fn lemma_package_metadata_agrees(
    reported: Vec<MetadataEntry>,
    from_package: Result<Metadata, String>,
    from_loader: Result<Metadata, AOTIModelError>,
)
    requires
        is_metadata_result(Ok::<Vec<MetadataEntry>, String>(reported), from_package),
        is_metadata_result(
            AOTIModelError::lifted(Ok::<Vec<MetadataEntry>, String>(reported)),
            from_loader,
        ),
    ensures
        from_package is Ok,
        from_loader is Ok,
        map_view(from_package->Ok_0) == map_view(from_loader->Ok_0),
{
}

} // verus!
