//! A terrain session: the store of parameters, the chosen policy, and the
//! grid last sampled from them.
use vstd::prelude::*;
use crate::grid::{recompute, sampled_grid, GridGeometry, Tile};
use crate::params::{ParameterName, ParameterStore, SamplingParameters};
use crate::policy::ElevationPolicy;

verus! {

pub struct Terrain {
    pub geometry: GridGeometry,
    pub policy: ElevationPolicy,
    pub store: ParameterStore,
    pub tiles: Vec<Tile>,
}

impl Terrain {
    pub open spec fn valid(self) -> bool {
        &&& self.geometry.valid()
        &&& self.policy.valid()
        &&& self.store.parameters.valid()
    }

    /// A session on the default parameters with its first grid already sampled.
    pub fn new<F: Fn(i64, i64) -> i32>(geometry: GridGeometry, policy: ElevationPolicy, noise: &F) -> (r: Terrain)
        requires
            geometry.valid(),
            policy.valid(),
            forall|x: i64, y: i64| noise.requires((x, y)),
        ensures
            r.valid(),
            r.geometry == geometry,
            r.policy == policy,
            r.store.parameters == SamplingParameters::spec_default(),
            !r.store.dirty,
            sampled_grid(geometry, SamplingParameters::spec_default(), policy, *noise, r.tiles@),
    {
        let mut store = ParameterStore::new();
        store.take_dirty();
        let tiles = recompute(geometry, store.parameters, policy, noise);
        Terrain { geometry, policy, store, tiles }
    }

    /// Applies one parameter edit; see `ParameterStore::set_parameter`.
    pub fn edit(&mut self, name: ParameterName, value: i64) -> (changed: bool)
        requires
            old(self).valid(),
        ensures
            final(self).valid(),
            final(self).geometry == old(self).geometry,
            final(self).policy == old(self).policy,
            final(self).tiles@ == old(self).tiles@,
            final(self).store.parameters == old(self).store.parameters.spec_set(name, value as int),
            changed == (final(self).store.parameters != old(self).store.parameters),
            final(self).store.dirty == (old(self).store.dirty || changed),
    {
        self.store.set_parameter(name, value)
    }

    /// Resamples the grid when an edit has made it stale, and reports whether it did.
    pub fn refresh<F: Fn(i64, i64) -> i32>(&mut self, noise: &F) -> (recomputed: bool)
        requires
            old(self).valid(),
            forall|x: i64, y: i64| noise.requires((x, y)),
        ensures
            final(self).valid(),
            recomputed == old(self).store.dirty,
            !final(self).store.dirty,
            final(self).geometry == old(self).geometry,
            final(self).policy == old(self).policy,
            final(self).store.parameters == old(self).store.parameters,
            recomputed ==> sampled_grid(
                final(self).geometry,
                final(self).store.parameters,
                final(self).policy,
                *noise,
                final(self).tiles@,
            ),
            !recomputed ==> final(self).tiles@ == old(self).tiles@,
    {
        if self.store.take_dirty() {
            self.tiles = recompute(self.geometry, self.store.parameters, self.policy, noise);
            true
        } else {
            false
        }
    }
}

} // verus!
