use vstd::prelude::*;
use vstd::string::StringExecFns;

use crate::ids::AsstId;
use crate::strutil::{contains_seq, lemma_concat_contains};

verus! {

/// One source file to be packaged: its path relative to the bundle's
/// source directory, and its full text content.
pub struct BundleEntry {
    pub rel_path: String,
    pub content: String,
}

impl View for BundleEntry {
    type V = (Seq<char>, Seq<char>);

    open spec fn view(&self) -> (Seq<char>, Seq<char>) {
        (self.rel_path@, self.content@)
    }
}

/// The text a single entry contributes to a bundle: a header line naming
/// the file, then its raw content, then a closing newline.
pub open spec fn entry_seq(path: Seq<char>, content: Seq<char>) -> Seq<char> {
    "// ==== file: "@ + path + "\n"@ + content + "\n"@
}

/// The full text of a bundle: the entries' contributions, in order.
pub open spec fn bundle_seq(entries: Seq<(Seq<char>, Seq<char>)>) -> Seq<char>
    decreases entries.len(),
{
    if entries.len() == 0 {
        Seq::empty()
    } else {
        bundle_seq(entries.drop_last()) + entry_seq(entries.last().0, entries.last().1)
    }
}

/// Packages an ordered set of source files into one artifact text.
///
/// The output is a function of the ordered (path, content) pairs alone,
/// so packaging the same ordered file set twice yields byte-identical
/// artifacts.
pub fn bundle_text(entries: &Vec<BundleEntry>) -> (r: String)
    ensures
        r@ == bundle_seq(entries@.map_values(|e: BundleEntry| e@)),
{
    let ghost m = entries@.map_values(|e: BundleEntry| e@);
    let mut acc = String::new();
    let mut i: usize = 0;
    while i < entries.len()
        invariant
            i <= entries.len(),
            m == entries@.map_values(|e: BundleEntry| e@),
            acc@ == bundle_seq(m.take(i as int)),
        decreases entries.len() - i,
    {
        acc.append("// ==== file: ");
        acc.append(entries[i].rel_path.as_str());
        acc.append("\n");
        acc.append(entries[i].content.as_str());
        acc.append("\n");
        proof {
            assert(m.take(i + 1).drop_last() =~= m.take(i as int));
            assert(m.take(i + 1).last() == m[i as int]);
            assert(acc@ =~= bundle_seq(m.take(i + 1)));
        }
        i = i + 1;
    }
    proof {
        assert(m.take(entries@.len() as int) =~= m);
    }
    acc
}

/// Packaging is deterministic: equal ordered file sets yield
/// byte-identical bundle texts.
pub proof fn lemma_bundle_deterministic(a: Seq<(Seq<char>, Seq<char>)>, b: Seq<(Seq<char>, Seq<char>)>)
    requires
        a == b,
    ensures
        bundle_seq(a) == bundle_seq(b),
{
}

/// The deterministic name of a bundle artifact. The assistant identity
/// embedded in the name is the invalidation key: a change of identity
/// changes every artifact name.
pub open spec fn artifact_name_seq(
    session: Seq<char>,
    bundle: Seq<char>,
    asst: Seq<char>,
    ext: Seq<char>,
) -> Seq<char> {
    session + "-"@ + bundle + "-bundle-"@ + asst + "."@ + ext
}

/// Computes the artifact file name for a (session, bundle, assistant) triple.
pub fn artifact_file_name(session: &str, bundle_name: &str, asst_id: &AsstId, ext: &str) -> (r:
    String)
    ensures
        r@ == artifact_name_seq(session@, bundle_name@, asst_id@, ext@),
{
    let mut acc = String::new();
    acc.append(session);
    acc.append("-");
    acc.append(bundle_name);
    acc.append("-bundle-");
    acc.append(asst_id.id.as_str());
    acc.append(".");
    acc.append(ext);
    proof {
        assert(acc@ =~= artifact_name_seq(session@, bundle_name@, asst_id@, ext@));
    }
    acc
}

/// An artifact name contains the identity it was built under, so an
/// artifact of the currently active assistant is never classified stale.
pub proof fn lemma_artifact_name_contains_identity(
    session: Seq<char>,
    bundle: Seq<char>,
    asst: Seq<char>,
    ext: Seq<char>,
)
    ensures
        contains_seq(artifact_name_seq(session, bundle, asst, ext), asst),
{
    let pre = session + "-"@ + bundle + "-bundle-"@;
    let post = "."@ + ext;
    lemma_concat_contains(pre, asst, post);
    assert(pre + asst + post =~= artifact_name_seq(session, bundle, asst, ext));
}

/// Changing the assistant identity changes the artifact name: under the
/// same session, bundle and extension, two distinct identities never
/// share an artifact, so an artifact of a previous identity is never
/// mistaken for the current one.
pub proof fn lemma_identity_change_new_name(
    session: Seq<char>,
    bundle: Seq<char>,
    a1: Seq<char>,
    a2: Seq<char>,
    ext: Seq<char>,
)
    requires
        a1 != a2,
    ensures
        artifact_name_seq(session, bundle, a1, ext) != artifact_name_seq(session, bundle, a2, ext),
{
    let pre = session + "-"@ + bundle + "-bundle-"@;
    let n1 = artifact_name_seq(session, bundle, a1, ext);
    let n2 = artifact_name_seq(session, bundle, a2, ext);
    assert(n1 =~= pre + a1 + "."@ + ext);
    assert(n2 =~= pre + a2 + "."@ + ext);
    if a1.len() == a2.len() {
        assert(exists|i: int| 0 <= i < a1.len() && a1[i] != a2[i]) by {
            if forall|i: int| 0 <= i < a1.len() ==> a1[i] == a2[i] {
                assert(a1 =~= a2);
            }
        }
        let i = choose|i: int| 0 <= i < a1.len() && a1[i] != a2[i];
        assert(n1[pre.len() + i] == a1[i]);
        assert(n2[pre.len() + i] == a2[i]);
        assert(n1 != n2);
    } else {
        assert(n1.len() != n2.len());
    }
}

} // verus!
