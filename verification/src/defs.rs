//! The definitions of a render tree, and the identifiers of those that
//! are synthesized while the tree is built.

use vstd::prelude::*;
use vstd::string::StringExecFns;
use crate::attributes::{Fill, Stroke, Units, Visibility};
use crate::dom::NodeId;
use crate::geom::{Rect, Transform};
use crate::text::{decimal, lemma_decimal_injective, push_decimal, str_eq};

verus! {

/// A path that traces a rectangle: from its corner `(x, y)` along its
/// width, its height and back, and closed.
#[derive(Clone, Debug)]
pub struct RectPath {
    pub id: String,
    pub transform: Transform,
    pub visibility: Visibility,
    pub fill: Option<Fill>,
    pub stroke: Option<Stroke>,
    /// The rectangle that the path traces.
    pub rect: Rect,
}

/// A synthesized clip path, referred to by its id. It is made for one
/// marker on one shape, and has one child: the path of its rectangle.
#[derive(Clone, Debug)]
pub struct ClipPath {
    pub id: String,
    pub units: Units,
    pub transform: Transform,
    /// The clip path that clips this one, by its id.
    pub clip_path: Option<String>,
    /// The only child.
    pub path: RectPath,
    /// The shape that carries the marker.
    pub shape: NodeId,
    /// The marker that is clipped.
    pub marker: NodeId,
}

impl ClipPath {
    /// The clip path clips to the rectangle `rect` in user space, and does
    /// nothing else: it is not moved and not clipped itself, and its only
    /// child is the visible path of `rect`, which has no id, is not moved,
    /// is filled with the default fill and is not stroked.
    pub open spec fn clips_to(self, rect: Rect) -> bool {
        &&& self.units == Units::UserSpaceOnUse
        &&& self.transform == Transform::identity()
        &&& self.clip_path is None
        &&& self.path.id@ == Seq::<char>::empty()
        &&& self.path.transform == Transform::identity()
        &&& self.path.visibility == Visibility::Visible
        &&& self.path.fill is Some
        &&& self.path.fill.unwrap().is_default()
        &&& self.path.stroke is None
        &&& self.path.rect == rect
    }

    /// The clip path that clips to `rect` under the id `id`, for `marker`
    /// on `shape`.
    pub fn new_rect(id: String, rect: Rect, shape: NodeId, marker: NodeId) -> (clip: ClipPath)
        ensures
            clip.id == id,
            clip.shape == shape,
            clip.marker == marker,
            clip.clips_to(rect),
    {
        ClipPath {
            id,
            units: Units::UserSpaceOnUse,
            transform: Transform::default(),
            clip_path: None,
            path: RectPath {
                id: String::new(),
                transform: Transform::default(),
                visibility: Visibility::Visible,
                fill: Some(Fill::default()),
                stroke: None,
                rect,
            },
            shape,
            marker,
        }
    }
}

/// The identifier of the `k`-th candidate for a synthesized clip path.
pub open spec fn clip_path_id(k: nat) -> Seq<char> {
    "clipPath"@ + decimal(k)
}

/// Different candidates have different identifiers.
pub proof fn lemma_clip_path_id_injective(a: nat, b: nat)
    requires
        clip_path_id(a) == clip_path_id(b),
    ensures
        a == b,
{
    let p = "clipPath"@;
    assert(clip_path_id(a).subrange(p.len() as int, clip_path_id(a).len() as int) == decimal(a));
    assert(clip_path_id(b).subrange(p.len() as int, clip_path_id(b).len() as int) == decimal(b));
    lemma_decimal_injective(a, b);
}

/// Among the first `n` candidates one is free, where fewer than `n`
/// identifiers are in use.
pub proof fn lemma_free_candidate(ids: Seq<Seq<char>>, n: nat)
    requires
        ids.len() < n,
    ensures
        exists|k: nat| 1 <= k <= n && !ids.contains(#[trigger] clip_path_id(k)),
    decreases n,
{
    if ids.contains(clip_path_id(n)) {
        // Without one occurrence of the last candidate, fewer than `n - 1`
        // identifiers are left for the candidates before it.
        let j = choose|j: int| 0 <= j < ids.len() && ids[j] == clip_path_id(n);
        let rest = ids.remove(j);
        lemma_free_candidate(rest, (n - 1) as nat);
        let k = choose|k: nat| 1 <= k <= n - 1 && !rest.contains(#[trigger] clip_path_id(k));
        if ids.contains(clip_path_id(k)) {
            let i = choose|i: int| 0 <= i < ids.len() && ids[i] == clip_path_id(k);
            if i == j {
                lemma_clip_path_id_injective(k, n);
            } else if i < j {
                assert(rest[i] == ids[i]);
            } else {
                assert(rest[i - 1] == ids[i]);
            }
        }
    }
}

/// The identifiers of a sequence of clip paths.
pub open spec fn clip_ids(clips: Seq<ClipPath>) -> Seq<Seq<char>> {
    Seq::new(clips.len(), |i: int| clips[i].id@)
}

/// No identifier occurs twice.
pub open spec fn distinct(ids: Seq<Seq<char>>) -> bool {
    forall|i: int, j: int| 0 <= i < j < ids.len() ==> ids[i] != ids[j]
}

/// The position of the clip path that was made for `marker` on `shape`,
/// from position `from` on.
pub open spec fn clip_position(clips: Seq<ClipPath>, shape: NodeId, marker: NodeId, from: int) -> Option<
    int,
>
    decreases clips.len() - from,
{
    if from < 0 || from >= clips.len() {
        None
    } else if clips[from].shape == shape && clips[from].marker == marker {
        Some(from)
    } else {
        clip_position(clips, shape, marker, from + 1)
    }
}

/// No two clip paths are made for the same marker on the same shape.
pub open spec fn distinct_scopes(clips: Seq<ClipPath>) -> bool {
    forall|i: int, j: int|
        0 <= i < j < clips.len() ==> !((#[trigger] clips[i]).shape == (#[trigger] clips[j]).shape
            && clips[i].marker == clips[j].marker)
}

/// What asking for the clip path of `marker` on `shape` makes of the
/// definitions `before`, and the identifier `id` that it gives.
///
/// Where the clip path is there already, the definitions stay as they are
/// and the identifier is that of the clip path. Otherwise one clip path is
/// appended: it clips to the rectangle `rect` and has the next free
/// identifier.
pub open spec fn clip_path_made(
    before: Defs,
    after: Defs,
    shape: NodeId,
    marker: NodeId,
    rect: Rect,
    id: Seq<char>,
) -> bool {
    &&& after.reserved_ids() == before.reserved_ids()
    &&& match clip_position(before.clips(), shape, marker, 0) {
        Some(i) => after.clips() == before.clips() && id == before.clips()[i].id@,
        None => {
            &&& after.clips().len() == before.clips().len() + 1
            &&& after.clips().drop_last() == before.clips()
            &&& after.clips().last().clips_to(rect)
            &&& after.clips().last().shape == shape
            &&& after.clips().last().marker == marker
            &&& after.clips().last().id@ == id
            &&& before.next_is(id)
        },
    }
}

/// The definitions that are synthesized while a render tree is built,
/// beside the identifiers that the source document already uses.
///
/// Definitions are only ever appended. No two of them share an identifier,
/// none has an identifier of the source document, and a marker has one
/// clip path on a shape, however often it is resolved there. Every clip
/// path clips to a rectangle in user space.
pub struct Defs {
    reserved: Vec<String>,
    clip_paths: Vec<ClipPath>,
}

impl Defs {
    /// The identifiers that the source document uses.
    pub closed spec fn reserved_ids(self) -> Seq<Seq<char>> {
        Seq::new(self.reserved@.len(), |i: int| self.reserved@[i]@)
    }

    /// The clip paths appended so far, oldest first.
    pub closed spec fn clips(self) -> Seq<ClipPath> {
        self.clip_paths@
    }

    /// Every identifier in use: those of the document, then those of the
    /// definitions.
    pub open spec fn ids(self) -> Seq<Seq<char>> {
        self.reserved_ids() + clip_ids(self.clips())
    }

    /// The identifier that the next synthesized clip path gets: that of
    /// the first candidate that is not in use.
    pub open spec fn next_is(self, id: Seq<char>) -> bool {
        exists|k: nat|
            {
                &&& 1 <= k
                &&& id == #[trigger] clip_path_id(k)
                &&& !self.ids().contains(id)
                &&& forall|j: nat| 1 <= j < k ==> self.ids().contains(#[trigger] clip_path_id(j))
            }
    }

    /// The invariant of the definitions: no two of them share an
    /// identifier, none has an identifier of the source document, and no
    /// two are made for the same marker on the same shape.
    pub closed spec fn wf(self) -> bool {
        &&& distinct(clip_ids(self.clips()))
        &&& distinct_scopes(self.clips())
        &&& forall|i: int|
            0 <= i < self.clips().len() ==> (#[trigger] self.clips()[i]).clips_to(
                self.clips()[i].path.rect,
            )
        &&& forall|i: int|
            0 <= i < self.clips().len() ==> !self.reserved_ids().contains(
                #[trigger] self.clips()[i].id@,
            )
    }

    /// In well-formed definitions every identifier is unique: no two clip
    /// paths share one, and none is an identifier of the source document.
    /// No marker has two clip paths on one shape, and every clip path
    /// clips to its rectangle and does nothing else.
    pub proof fn lemma_ids_unique(self)
        requires
            self.wf(),
        ensures
            distinct(clip_ids(self.clips())),
            distinct_scopes(self.clips()),
            forall|i: int|
                0 <= i < self.clips().len() ==> (#[trigger] self.clips()[i]).clips_to(
                    self.clips()[i].path.rect,
                ),
            forall|i: int|
                0 <= i < self.clips().len() ==> !self.reserved_ids().contains(
                    #[trigger] self.clips()[i].id@,
                ),
    {
    }

    /// The next identifier is determined by the identifiers in use: two
    /// builds that have used the same identifiers get the same next one.
    pub proof fn lemma_next_is_unique(self, other: Defs, a: Seq<char>, b: Seq<char>)
        requires
            self.ids() == other.ids(),
            self.next_is(a),
            other.next_is(b),
        ensures
            a == b,
    {
        let k = choose|k: nat|
            {
                &&& 1 <= k
                &&& a == #[trigger] clip_path_id(k)
                &&& !self.ids().contains(a)
                &&& forall|j: nat| 1 <= j < k ==> self.ids().contains(#[trigger] clip_path_id(j))
            };
        let m = choose|m: nat|
            {
                &&& 1 <= m
                &&& b == #[trigger] clip_path_id(m)
                &&& !other.ids().contains(b)
                &&& forall|j: nat| 1 <= j < m ==> other.ids().contains(#[trigger] clip_path_id(j))
            };
        if k < m {
            assert(other.ids().contains(clip_path_id(k)));
        } else if m < k {
            assert(self.ids().contains(clip_path_id(m)));
        }
    }

    /// No definitions yet, for a document that uses the identifiers `reserved`.
    pub fn new(reserved: Vec<String>) -> (defs: Defs)
        ensures
            defs.wf(),
            defs.reserved_ids() == Seq::new(reserved@.len(), |i: int| reserved@[i]@),
            defs.clips() == Seq::<ClipPath>::empty(),
    {
        Defs { reserved, clip_paths: Vec::new() }
    }

    /// The clip paths appended so far, oldest first.
    pub fn clip_paths(&self) -> (clips: &Vec<ClipPath>)
        ensures
            clips@ == self.clips(),
    {
        &self.clip_paths
    }

    /// Whether `id` is in use, by the document or by a definition.
    pub fn is_taken(&self, id: &str) -> (r: bool)
        ensures
            r == self.ids().contains(id@),
    {
        let mut i: usize = 0;
        while i < self.reserved.len()
            invariant
                i <= self.reserved@.len(),
                forall|j: int| 0 <= j < i ==> self.reserved_ids()[j] != id@,
            decreases self.reserved@.len() - i,
        {
            if str_eq(self.reserved[i].as_str(), id) {
                assert(self.ids()[i as int] == id@);
                return true;
            }
            i = i + 1;
        }
        let mut k: usize = 0;
        while k < self.clip_paths.len()
            invariant
                k <= self.clip_paths@.len(),
                forall|j: int| 0 <= j < self.reserved@.len() ==> self.reserved_ids()[j] != id@,
                forall|j: int| 0 <= j < k ==> clip_ids(self.clips())[j] != id@,
            decreases self.clip_paths@.len() - k,
        {
            if str_eq(self.clip_paths[k].id.as_str(), id) {
                assert(self.ids()[self.reserved@.len() + k] == id@);
                return true;
            }
            k = k + 1;
        }
        false
    }

    /// An identifier for a new clip path: `clipPath` and a number, the
    /// smallest from one up that gives an identifier not yet in use.
    pub fn gen_clip_path_id(&self) -> (id: String)
        ensures
            self.next_is(id@),
    {
        let reserved_len: usize = self.reserved.len();
        let clips_len: usize = self.clip_paths.len();
        let mut idx: u128 = 1;
        loop
            invariant
                1 <= idx <= self.ids().len() + 1,
                self.ids().len() == reserved_len + clips_len,
                forall|j: nat| 1 <= j < idx ==> self.ids().contains(#[trigger] clip_path_id(j)),
            decreases self.ids().len() + 1 - idx,
        {
            let mut id: String = String::from_str("clipPath");
            push_decimal(&mut id, idx);
            assert(id@ == clip_path_id(idx as nat));
            if !self.is_taken(id.as_str()) {
                return id;
            }
            proof {
                let n = (self.ids().len() + 1) as nat;
                lemma_free_candidate(self.ids(), n);
                let k = choose|k: nat|
                    1 <= k <= n && !self.ids().contains(#[trigger] clip_path_id(k));
                assert(k > idx);
            }
            idx = idx + 1;
        }
    }

    /// The position of the clip path that was made for `marker` on
    /// `shape`, if there is one.
    pub fn find_clip_path(&self, shape: NodeId, marker: NodeId) -> (pos: Option<usize>)
        ensures
            match pos {
                Some(p) => clip_position(self.clips(), shape, marker, 0) == Some(p as int) && p
                    < self.clips().len(),
                None => clip_position(self.clips(), shape, marker, 0) is None,
            },
    {
        let mut i: usize = 0;
        while i < self.clip_paths.len()
            invariant
                i <= self.clip_paths@.len(),
                clip_position(self.clips(), shape, marker, 0) == clip_position(
                    self.clips(),
                    shape,
                    marker,
                    i as int,
                ),
            decreases self.clip_paths@.len() - i,
        {
            if self.clip_paths[i].shape.index == shape.index && self.clip_paths[i].marker.index
                == marker.index {
                return Some(i);
            }
            i = i + 1;
        }
        None
    }

    /// The identifier of the clip path of `marker` on `shape`.
    ///
    /// Where the marker was resolved on the shape before, the clip path
    /// made then is used again. Otherwise a clip path with the rectangle
    /// `rect` is appended under a new identifier.
    pub fn clip_path_for(&mut self, shape: NodeId, marker: NodeId, rect: Rect) -> (id: String)
        requires
            old(self).wf(),
        ensures
            final(self).wf(),
            clip_path_made(*old(self), *final(self), shape, marker, rect, id@),
    {
        match self.find_clip_path(shape, marker) {
            Some(p) => {
                let found: &ClipPath = &self.clip_paths[p];
                found.id.clone()
            },
            None => {
                let id: String = self.gen_clip_path_id();
                let clip = ClipPath::new_rect(id.clone(), rect, shape, marker);
                self.clip_paths.push(clip);
                proof {
                    let before = clip_ids(old(self).clips());
                    let after = clip_ids(self.clips());
                    assert(after == before.push(id@));
                    assert forall|i: int| 0 <= i < before.len() implies before[i] != id@ by {
                        assert(old(self).ids()[old(self).reserved_ids().len() + i] == before[i]);
                    }
                    assert forall|i: int| 0 <= i < old(self).reserved_ids().len() implies old(
                        self,
                    ).reserved_ids()[i] != id@ by {
                        assert(old(self).ids()[i] == old(self).reserved_ids()[i]);
                    }
                    assert forall|i: int| 0 <= i < old(self).clips().len() implies !(old(
                        self,
                    ).clips()[i].shape == shape && old(self).clips()[i].marker == marker) by {
                        lemma_no_clip_position(old(self).clips(), shape, marker, 0, i);
                    }
                    assert(self.clips().drop_last() == old(self).clips());
                }
                id
            },
        }
    }
}

/// Where no clip path is found for a marker on a shape from position
/// `from` on, none from there on is made for them.
proof fn lemma_no_clip_position(
    clips: Seq<ClipPath>,
    shape: NodeId,
    marker: NodeId,
    from: int,
    i: int,
)
    requires
        0 <= from <= i < clips.len(),
        clip_position(clips, shape, marker, from) is None,
    ensures
        !(clips[i].shape == shape && clips[i].marker == marker),
    decreases i - from,
{
    if from < i {
        lemma_no_clip_position(clips, shape, marker, from + 1, i);
    }
}

} // verus!
