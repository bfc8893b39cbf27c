use vstd::prelude::*;
use crate::model::{UsedImage, UsedImageV};
use crate::text::str_eq;

verus! {

/// The case folding of a piece of text: what lower-casing it yields. The
/// result depends on the characters alone.
pub uninterp spec fn lower_of(s: Seq<char>) -> Seq<char>;

/// Relies on str::to_lowercase: a pure function of the characters, and
/// empty text stays empty.
#[verifier::external_body]
fn lowercase(s: &str) -> (r: String)
    ensures
        r@ == lower_of(s@),
        s@.len() == 0 ==> r@.len() == 0,
{
    s.to_lowercase()
}

/// Two identifiers match when they are equal after case folding.
pub open spec fn uuid_matches(a: Seq<char>, b: Seq<char>) -> bool {
    lower_of(a) == lower_of(b)
}

/// Case-insensitive identifier comparison.
pub fn uuid_eq(a: &str, b: &str) -> (r: bool)
    ensures
        r == uuid_matches(a@, b@),
{
    let la = lowercase(a);
    let lb = lowercase(b);
    str_eq(la.as_str(), lb.as_str())
}

/// Position of the first loaded image whose identifier matches, keeping
/// the positional index that later frame comparison relies on.
pub open spec fn find_image_spec(images: Seq<UsedImageV>, uuid: Seq<char>) -> Option<int>
    decreases images.len(),
{
    if images.len() == 0 {
        None
    } else if uuid_matches(images[0].uuid, uuid) {
        Some(0)
    } else {
        match find_image_spec(images.drop_first(), uuid) {
            None => None,
            Some(i) => Some(i + 1),
        }
    }
}

proof fn lemma_find_image_step(images: Seq<UsedImageV>, uuid: Seq<char>, i: int)
    requires
        0 <= i < images.len(),
        !uuid_matches(images[i].uuid, uuid),
    ensures
        match find_image_spec(images.skip(i + 1), uuid) {
            None => find_image_spec(images.skip(i), uuid) is None,
            Some(k) => find_image_spec(images.skip(i), uuid) == Some(k + 1),
        },
{
    assert(images.skip(i)[0] == images[i]);
    assert(images.skip(i).drop_first() =~= images.skip(i + 1));
}

/// Linear scan of the loaded-image list for the resolver's identifier.
pub fn find_image(images: &Vec<UsedImage>, uuid: &str) -> (r: Option<usize>)
    ensures
        match r {
            Some(i) => i < images@.len() && find_image_spec(
                images@.map_values(|im: UsedImage| im@),
                uuid@,
            ) == Some(i as int),
            None => find_image_spec(images@.map_values(|im: UsedImage| im@), uuid@) is None,
        },
{
    let ghost iv = images@.map_values(|im: UsedImage| im@);
    let n: usize = images.len();
    let mut i: usize = 0;
    proof {
        assert(iv.skip(0) =~= iv);
    }
    while i < n
        invariant
            iv == images@.map_values(|im: UsedImage| im@),
            n == images@.len(),
            i <= n,
            match find_image_spec(iv.skip(i as int), uuid@) {
                None => find_image_spec(iv, uuid@) is None,
                Some(k) => find_image_spec(iv, uuid@) == Some(k + i),
            },
        decreases n - i,
    {
        if uuid_eq(images[i].uuid.as_str(), uuid) {
            proof {
                assert(iv.skip(i as int)[0] == iv[i as int]);
                assert(find_image_spec(iv.skip(i as int), uuid@) == Some(0int));
            }
            return Some(i);
        }
        proof {
            assert(iv.skip(i as int)[0] == iv[i as int]);
            lemma_find_image_step(iv, uuid@, i as int);
        }
        i += 1;
    }
    proof {
        assert(iv.skip(n as int) =~= Seq::<UsedImageV>::empty());
    }
    None
}

/// Matching is insensitive to case on either side: identifiers equal when
/// case-folded match both ways round.
pub proof fn lemma_match_case_insensitive(a: Seq<char>, b: Seq<char>)
    ensures
        lower_of(a) == lower_of(b) ==> uuid_matches(a, b) && uuid_matches(b, a),
{
}

/// A stored identifier that matches the probe is found: the scan returns
/// some position, no later than the first match.
pub proof fn lemma_find_image_hit(images: Seq<UsedImageV>, uuid: Seq<char>, i: int)
    ensures
        0 <= i < images.len() && uuid_matches(images[i].uuid, uuid)
            ==> (find_image_spec(images, uuid) matches Some(j) && 0 <= j <= i),
    decreases images.len(),
{
    if 0 <= i < images.len() && uuid_matches(images[i].uuid, uuid) {
        if images.len() > 0 && !uuid_matches(images[0].uuid, uuid) {
            lemma_find_image_hit(images.drop_first(), uuid, i - 1);
        }
    }
}

} // verus!
