//! The table of prepared export sources.

use crate::source::{GpuImageExportSource, ImageExportSource, PrepareError, SourceTexture};
use std::collections::HashMap;
use vstd::prelude::*;

verus! {

/// For each export source that has been prepared, by its identifier, what
/// was prepared for it last.
pub struct ExportSourceRegistry {
    prepared: HashMap<u64, GpuImageExportSource>,
}

impl View for ExportSourceRegistry {
    type V = Map<u64, GpuImageExportSource>;

    closed spec fn view(&self) -> Map<u64, GpuImageExportSource> {
        self.prepared@
    }
}

/// What a lookup of `id` finds in a table.
pub open spec fn found_in(table: Map<u64, GpuImageExportSource>, id: u64) -> Option<
    GpuImageExportSource,
> {
    if table.contains_key(id) {
        Some(table[id])
    } else {
        None
    }
}

/// The table after `source` was prepared under `id` with the texture
/// `gpu_image`: the new entry replaces what stood under `id`; without a
/// texture the table stays as it was.
pub open spec fn after_prepare(
    table: Map<u64, GpuImageExportSource>,
    id: u64,
    source: ImageExportSource,
    gpu_image: Option<SourceTexture>,
) -> Map<u64, GpuImageExportSource> {
    match gpu_image {
        Some(texture) => table.insert(id, source.prepared(texture)),
        None => table,
    }
}

impl ExportSourceRegistry {
    /// Every entry is a well-formed layout.
    pub open spec fn wf(&self) -> bool {
        forall|id: u64| #[trigger] self@.contains_key(id) ==> self@[id].wf()
    }

    /// A registry in which nothing is prepared.
    pub fn new() -> (registry: ExportSourceRegistry)
        ensures
            registry@ == Map::<u64, GpuImageExportSource>::empty(),
            registry.wf(),
    {
        ExportSourceRegistry { prepared: HashMap::new() }
    }

    /// Prepares `source` and records the result under `id`, in place of what
    /// was recorded there. Where the source texture is missing nothing is
    /// recorded and the earlier entry stays.
    pub fn prepare(&mut self, id: u64, source: ImageExportSource, gpu_image: Option<SourceTexture>) -> (prepared:
        Result<GpuImageExportSource, PrepareError>)
        requires
            gpu_image matches Some(texture) ==> texture.supported(),
        ensures
            prepared == match gpu_image {
                Some(texture) => Ok::<GpuImageExportSource, PrepareError>(source.prepared(texture)),
                None => Err(PrepareError::SourceTextureMissing),
            },
            final(self)@ == after_prepare(old(self)@, id, source, gpu_image),
            old(self).wf() ==> final(self).wf(),
    {
        broadcast use vstd::std_specs::hash::group_hash_axioms;

        let prepared = ImageExportSource::prepare_asset(source, gpu_image);
        if let Ok(gpu_source) = prepared {
            self.prepared.insert(id, gpu_source);
        }
        proof {
            if old(self).wf() {
                assert forall|k: u64| #[trigger] self@.contains_key(k) implies self@[k].wf() by {
                    if k != id {
                        assert(old(self)@.contains_key(k));
                    }
                }
            }
        }
        prepared
    }

    /// What is prepared for `id`, if anything. The registry is left as it
    /// is, so every lookup up to the next `prepare` finds the same.
    pub fn lookup(&self, id: u64) -> (found: Option<GpuImageExportSource>)
        ensures
            found == found_in(self@, id),
    {
        broadcast use vstd::std_specs::hash::group_hash_axioms;

        match self.prepared.get(&id) {
            Some(gpu_source) => Some(*gpu_source),
            None => None,
        }
    }
}

/// A lookup right after a successful `prepare` under the same identifier
/// finds what was prepared; under any other identifier, and after a
/// `prepare` that failed, it finds what it found before.
pub proof fn lemma_lookup_after_prepare(
    table: Map<u64, GpuImageExportSource>,
    id: u64,
    source: ImageExportSource,
    gpu_image: Option<SourceTexture>,
    other: u64,
)
    ensures
        gpu_image matches Some(texture) ==> found_in(
            after_prepare(table, id, source, gpu_image),
            id,
        ) == Some(source.prepared(texture)),
        gpu_image is None ==> found_in(after_prepare(table, id, source, gpu_image), id) == found_in(
            table,
            id,
        ),
        other != id ==> found_in(after_prepare(table, id, source, gpu_image), other) == found_in(
            table,
            other,
        ),
{
}

} // verus!
