use vstd::prelude::*;

use crate::lifecycle::{
    gen_doc_value, gen_reload_error, load_error, user_doc_value, DocProbeV, FolderProbe, LoadProbeV,
};
use crate::schema::{
    gen_doc_model, lemma_generated_round_trip, lemma_user_round_trip, user_doc_model,
};
use crate::toml_model::toml_doc;
use crate::types::{default_generated_v, default_user_v, GeneratedConfigV};

verus! {

// The laws that tie the lifecycle operations together.

/// Bootstrapping is idempotent. A first load against an empty directory
/// succeeds with the documented defaults and asks for both files to be
/// written; a second load, which finds the directory and exactly the texts
/// the first one wrote, succeeds with the same two values — and, `Content`
/// probes being present ones, asks for no write, so the directory keeps
/// exactly the two expected files.
pub proof fn lemma_bootstrap_idempotent(wu: Seq<char>, wg: Seq<char>)
    requires
        toml_doc(wu) == Some(user_doc_model(default_user_v())),
        toml_doc(wg) == Some(gen_doc_model(default_generated_v())),
    ensures
        load_error(
            (LoadProbeV {
                folder: FolderProbe::Missing,
                user: DocProbeV::Missing,
                generated: DocProbeV::Missing,
            }),
        ) is None,
        user_doc_value(DocProbeV::Missing) == default_user_v(),
        gen_doc_value(DocProbeV::Missing) == default_generated_v(),
        load_error(
            (LoadProbeV {
                folder: FolderProbe::IsDir,
                user: DocProbeV::Content(wu),
                generated: DocProbeV::Content(wg),
            }),
        ) is None,
        user_doc_value(DocProbeV::Content(wu)) == default_user_v(),
        gen_doc_value(DocProbeV::Content(wg)) == default_generated_v(),
{
    lemma_user_round_trip(default_user_v());
    lemma_generated_round_trip(default_generated_v());
}

/// Save followed by reload gives the generated value back: any text that
/// parses to the document `save` writes for a generated value reloads
/// without error to exactly that value.
pub proof fn lemma_save_reload_round_trip(g: GeneratedConfigV, s: Seq<char>)
    requires
        toml_doc(s) == Some(gen_doc_model(g)),
    ensures
        gen_reload_error(DocProbeV::Content(s)) is None,
        gen_doc_value(DocProbeV::Content(s)) == g,
{
    lemma_generated_round_trip(g);
}

} // verus!
