use vstd::prelude::*;
use vstd::string::StringExecFns;
use crate::model::{Frame, FrameV, UsedImage, UsedImageV, view_opt_str};
use crate::text::{has_sub, find_str, split_str, split_on};
use crate::normalize::{normalize_output, normalize_text};
use crate::demangle::{demangle_text, demangled};

verus! {

/// The runtime-noise substrings: thread-termination signaling, panic
/// dispatch, backtrace capture, unwind entry, process abort.
pub open spec fn default_markers() -> Seq<Seq<char>> {
    seq!["pthread_kill"@, "panic"@, "backtrace"@, "rust_begin_unwind"@, "abort"@]
}

pub fn default_noise_markers() -> (r: Vec<String>)
    ensures
        r@.map_values(|s: String| s@) == default_markers(),
{
    let mut out: Vec<String> = Vec::new();
    out.push(String::from_str("pthread_kill"));
    out.push(String::from_str("panic"));
    out.push(String::from_str("backtrace"));
    out.push(String::from_str("rust_begin_unwind"));
    out.push(String::from_str("abort"));
    proof {
        assert(out@.map_values(|s: String| s@) =~= default_markers());
    }
    out
}

pub open spec fn contains_marker(sym: Seq<char>, markers: Seq<Seq<char>>) -> bool {
    exists|k: int| 0 <= k < markers.len() && has_sub(sym, markers[k])
}

/// A frame is noise when its own reported symbol holds any marker; a frame
/// without a symbol is never noise.
pub open spec fn is_noise(symbol: Option<Seq<char>>, markers: Seq<Seq<char>>) -> bool {
    match symbol {
        Some(s) => contains_marker(s, markers),
        None => false,
    }
}

#[verifier::loop_isolation(false)]
fn symbol_is_noise(symbol: &Option<String>, markers: &Vec<String>) -> (r: bool)
    ensures
        r == is_noise(view_opt_str(*symbol), markers@.map_values(|s: String| s@)),
{
    let ghost mv = markers@.map_values(|s: String| s@);
    match symbol {
        None => false,
        Some(s) => {
            let n: usize = markers.len();
            let mut k: usize = 0;
            while k < n
                invariant
                    mv == markers@.map_values(|m: String| m@),
                    n == markers@.len(),
                    k <= n,
                    forall|j: int| 0 <= j < k ==> !has_sub(s@, mv[j]),
                decreases n - k,
            {
                if find_str(s.as_str(), markers[k].as_str()).is_some() {
                    proof {
                        assert(has_sub(s@, mv[k as int]));
                        assert(view_opt_str(*symbol) == Some(s@));
                    }
                    return true;
                }
                k += 1;
            }
            proof {
                assert(!contains_marker(s@, mv));
                assert(view_opt_str(*symbol) == Some(s@));
            }
            false
        },
    }
}

pub open spec fn opt_or_empty(s: Option<Seq<char>>) -> Seq<char> {
    match s {
        Some(t) => t,
        None => Seq::empty(),
    }
}

/// What one (frame, text block) pair contributes: nothing for a noise
/// frame; the block itself for a frame of the target image; the owning
/// image's name, a tab, and the original symbol for any other frame.
pub open spec fn frame_output(
    f: FrameV,
    block: Seq<char>,
    images: Seq<UsedImageV>,
    target: int,
    markers: Seq<Seq<char>>,
) -> Option<Seq<char>> {
    if is_noise(f.symbol, markers) {
        None
    } else if f.image_index == target {
        Some(block)
    } else {
        Some(opt_or_empty(images[f.image_index as int].name) + "\t"@ + opt_or_empty(f.symbol))
    }
}

/// The rendered lines: frames and blocks paired positionally, stopping at
/// the shorter sequence, each pair contributing its output if any.
pub open spec fn render_frames(
    frames: Seq<FrameV>,
    blocks: Seq<Seq<char>>,
    images: Seq<UsedImageV>,
    target: int,
    markers: Seq<Seq<char>>,
) -> Seq<Seq<char>>
    decreases frames.len(),
{
    if frames.len() == 0 || blocks.len() == 0 {
        Seq::empty()
    } else {
        let rest = render_frames(frames.drop_first(), blocks.drop_first(), images, target, markers);
        match frame_output(frames[0], blocks[0], images, target, markers) {
            None => rest,
            Some(l) => seq![l] + rest,
        }
    }
}

/// Every consumed frame that must be labeled by its image stays inside the
/// image list; a violation is the consumer-time error the model warns of.
pub open spec fn frames_renderable(
    frames: Seq<FrameV>,
    n: int,
    images_len: int,
    target: int,
    markers: Seq<Seq<char>>,
) -> bool {
    forall|k: int|
        0 <= k < n && !is_noise(frames[k].symbol, markers) && frames[k].image_index != target
            ==> 0 <= frames[k].image_index < images_len
}

pub open spec fn min_len(a: int, b: int) -> int {
    if a <= b {
        a
    } else {
        b
    }
}

#[verifier::loop_isolation(false)]
pub fn render_frames_exec(
    frames: &Vec<Frame>,
    blocks: &Vec<String>,
    images: &Vec<UsedImage>,
    target: usize,
    markers: &Vec<String>,
) -> (r: Vec<String>)
    requires
        target < images@.len(),
        frames_renderable(
            frames@.map_values(|f: Frame| f@),
            min_len(frames@.len() as int, blocks@.len() as int),
            images@.len() as int,
            target as int,
            markers@.map_values(|s: String| s@),
        ),
    ensures
        r@.map_values(|s: String| s@) == render_frames(
            frames@.map_values(|f: Frame| f@),
            blocks@.map_values(|s: String| s@),
            images@.map_values(|im: UsedImage| im@),
            target as int,
            markers@.map_values(|s: String| s@),
        ),
{
    let ghost fv = frames@.map_values(|f: Frame| f@);
    let ghost bv = blocks@.map_values(|s: String| s@);
    let ghost iv = images@.map_values(|im: UsedImage| im@);
    let ghost mv = markers@.map_values(|s: String| s@);
    let mut out: Vec<String> = Vec::new();
    let nf: usize = frames.len();
    let nb: usize = blocks.len();
    let n: usize = if nf <= nb {
        nf
    } else {
        nb
    };
    let mut i: usize = 0;
    proof {
        assert(fv.skip(0) =~= fv);
        assert(bv.skip(0) =~= bv);
    }
    while i < n
        invariant
            i <= n,
            render_frames(fv, bv, iv, target as int, mv) == out@.map_values(|s: String| s@)
                + render_frames(fv.skip(i as int), bv.skip(i as int), iv, target as int, mv),
        decreases n - i,
    {
        let frame = &frames[i];
        proof {
            assert(fv.skip(i as int)[0] == fv[i as int]);
            assert(bv.skip(i as int)[0] == bv[i as int]);
            assert(fv.skip(i as int).drop_first() =~= fv.skip(i + 1));
            assert(bv.skip(i as int).drop_first() =~= bv.skip(i + 1));
        }
        let ghost old_map = out@.map_values(|s: String| s@);
        proof {
            assert(view_opt_str(frames@[i as int].symbol) == fv[i as int].symbol);
        }
        if symbol_is_noise(&frame.symbol, markers) {
        } else if frame.image_index >= 0 && (frame.image_index as u64) == (target as u64) {
            out.push(blocks[i].clone());
            proof {
                assert(out@.map_values(|s: String| s@) =~= old_map.push(bv[i as int]));
            }
        } else {
            let nimg: usize = images.len();
            proof {
                assert(!is_noise(fv[i as int].symbol, mv) && fv[i as int].image_index
                    != target as int);
                assert(0 <= fv[i as int].image_index < iv.len());
                assert(iv.len() == nimg as int);
            }
            let idx: usize = frame.image_index as usize;
            let image = &images[idx];
            proof {
                assert(iv[fv[i as int].image_index as int] == images@[idx as int]@);
            }
            let mut line = match &image.name {
                Some(nm) => nm.clone(),
                None => String::new(),
            };
            line.append("\t");
            match &frame.symbol {
                Some(sym) => line.append(sym.as_str()),
                None => (),
            }
            proof {
                assert(line@ =~= opt_or_empty(iv[fv[i as int].image_index as int].name) + "\t"@
                    + opt_or_empty(fv[i as int].symbol));
                assert(out@.map_values(|s: String| s@).push(line@) =~= old_map.push(line@));
            }
            out.push(line);
            proof {
                assert(out@.map_values(|s: String| s@) =~= old_map.push(line@));
            }
        }
        i += 1;
    }
    proof {
        if i < fv.len() && i < bv.len() {
            assert(false);
        }
        assert(render_frames(fv.skip(i as int), bv.skip(i as int), iv, target as int, mv)
            == Seq::<Seq<char>>::empty());
        assert(out@.map_values(|s: String| s@) + Seq::<Seq<char>>::empty() =~= out@.map_values(
            |s: String| s@,
        ));
    }
    out
}

/// The text blocks for the frames: the resolver text normalized, the
/// result demangled, the whole split at blank lines.
pub open spec fn blocks_of(raw: Seq<char>) -> Seq<Seq<char>> {
    split_on(demangled(normalize_text(raw)), "\n\n"@)
}

/// The whole post-resolver pipeline: normalize, demangle, split into
/// per-frame blocks, filter and render. Nothing comes back when a
/// consumed frame names an image outside the list, the consumer-time
/// error that the crash-report model allows.
#[verifier::loop_isolation(false)]
pub fn symbolicate_frames(
    frames: &Vec<Frame>,
    raw: &str,
    images: &Vec<UsedImage>,
    target: usize,
    markers: &Vec<String>,
) -> (r: Option<Vec<String>>)
    requires
        target < images@.len(),
    ensures
        r is Some <==> frames_renderable(
            frames@.map_values(|f: Frame| f@),
            min_len(frames@.len() as int, blocks_of(raw@).len() as int),
            images@.len() as int,
            target as int,
            markers@.map_values(|s: String| s@),
        ),
        r matches Some(lines) ==> lines@.map_values(|s: String| s@) == render_frames(
            frames@.map_values(|f: Frame| f@),
            blocks_of(raw@),
            images@.map_values(|im: UsedImage| im@),
            target as int,
            markers@.map_values(|s: String| s@),
        ),
{
    let ghost fv = frames@.map_values(|f: Frame| f@);
    let ghost mv = markers@.map_values(|s: String| s@);
    let normalized = normalize_output(raw);
    let demangled_text = demangle_text(normalized.as_str());
    proof {
        reveal_strlit("\n\n");
        assert("\n\n"@.len() == 2);
    }
    let blocks = split_str(demangled_text.as_str(), "\n\n");
    proof {
        assert(blocks@.map_values(|s: String| s@) =~= blocks_of(raw@));
    }
    let nf: usize = frames.len();
    let nb: usize = blocks.len();
    let n: usize = if nf <= nb {
        nf
    } else {
        nb
    };
    let mut i: usize = 0;
    while i < n
        invariant
            i <= n,
            forall|k: int|
                0 <= k < i && !is_noise(fv[k].symbol, mv) && fv[k].image_index != target as int
                    ==> 0 <= fv[k].image_index < images@.len(),
        decreases n - i,
    {
        let frame = &frames[i];
        if !symbol_is_noise(&frame.symbol, markers) {
            let idx = frame.image_index;
            let same = idx >= 0 && (idx as u64) == (target as u64);
            if !same {
                if !(idx >= 0 && (idx as u64) < (images.len() as u64)) {
                    proof {
                        assert(!(0 <= fv[i as int].image_index < images@.len()));
                    }
                    return None;
                }
            }
        }
        i += 1;
    }
    Some(render_frames_exec(frames, &blocks, images, target, markers))
}

/// A noise frame is never emitted, whatever image it belongs to.
pub proof fn lemma_noise_frame_dropped(
    f: FrameV,
    block: Seq<char>,
    images: Seq<UsedImageV>,
    target: int,
    markers: Seq<Seq<char>>,
)
    requires
        is_noise(f.symbol, markers),
    ensures
        frame_output(f, block, images, target, markers) is None,
{
}

/// Dropping one noise pair leaves the rendering of everything else
/// untouched: the noise frame contributes nothing at all.
pub proof fn lemma_noise_never_emitted(
    frames: Seq<FrameV>,
    blocks: Seq<Seq<char>>,
    images: Seq<UsedImageV>,
    target: int,
    markers: Seq<Seq<char>>,
    k: int,
)
    requires
        0 <= k < frames.len(),
        k < blocks.len(),
        is_noise(frames[k].symbol, markers),
    ensures
        render_frames(frames, blocks, images, target, markers) == render_frames(
            frames.remove(k),
            blocks.remove(k),
            images,
            target,
            markers,
        ),
    decreases k,
{
    if k == 0 {
        assert(frames.remove(0) =~= frames.drop_first());
        assert(blocks.remove(0) =~= blocks.drop_first());
    } else {
        assert(frames.remove(k).drop_first() =~= frames.drop_first().remove(k - 1));
        assert(blocks.remove(k).drop_first() =~= blocks.drop_first().remove(k - 1));
        assert(frames.drop_first()[k - 1] == frames[k]);
        lemma_noise_never_emitted(
            frames.drop_first(),
            blocks.drop_first(),
            images,
            target,
            markers,
            k - 1,
        );
        assert(frames.remove(k)[0] == frames[0]);
        assert(blocks.remove(k)[0] == blocks[0]);
    }
}

/// A surviving frame of the target image renders as its block alone; one
/// of any other image renders as the image name, a tab, and the frame's
/// own symbol.
pub proof fn lemma_frame_rendering(
    f: FrameV,
    block: Seq<char>,
    images: Seq<UsedImageV>,
    target: int,
    markers: Seq<Seq<char>>,
)
    requires
        !is_noise(f.symbol, markers),
        f.image_index != target ==> 0 <= f.image_index < images.len(),
    ensures
        f.image_index == target ==> frame_output(f, block, images, target, markers) == Some(block),
        f.image_index != target ==> frame_output(f, block, images, target, markers) == Some(
            opt_or_empty(images[f.image_index as int].name) + "\t"@ + opt_or_empty(f.symbol),
        ),
{
}

} // verus!
