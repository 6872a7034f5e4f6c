//! Mission submissions: the items a conversation collects and the
//! record built from them when the user finalizes.
use vstd::prelude::*;
use crate::team::TeamId;
use crate::text::clone_bytes;
use crate::text::lemma_seq_views_push;
use crate::text::seq_views;

verus! {

/// An item collected during a submission conversation: a free-text
/// entry or a reference into image storage, tagged by provenance.
#[derive(Clone, PartialEq, Eq, Debug)]
pub enum Item {
    Text(Vec<u8>),
    ImageRef(Vec<u8>),
}

/// The mathematical image of a collected item.
pub enum ItemV {
    Text(Seq<u8>),
    ImageRef(Seq<u8>),
}

impl View for Item {
    type V = ItemV;

    open spec fn view(&self) -> ItemV {
        match self {
            Item::Text(v) => ItemV::Text(v@),
            Item::ImageRef(v) => ItemV::ImageRef(v@),
        }
    }
}

/// The views of a sequence of items.
pub open spec fn item_views(s: Seq<Item>) -> Seq<ItemV> {
    s.map_values(|it: Item| it@)
}

/// The storage references of the image items, in order.
pub open spec fn images_of(s: Seq<ItemV>) -> Seq<Seq<u8>>
    decreases s.len(),
{
    if s.len() == 0 {
        Seq::empty()
    } else {
        match s.last() {
            ItemV::ImageRef(v) => images_of(s.drop_last()).push(v),
            ItemV::Text(_) => images_of(s.drop_last()),
        }
    }
}

/// The bodies of the text items, in order.
pub open spec fn texts_of(s: Seq<ItemV>) -> Seq<Seq<u8>>
    decreases s.len(),
{
    if s.len() == 0 {
        Seq::empty()
    } else {
        match s.last() {
            ItemV::Text(v) => texts_of(s.drop_last()).push(v),
            ItemV::ImageRef(_) => texts_of(s.drop_last()),
        }
    }
}

/// A mission submission: created exactly once when a conversation
/// reaches the finalize transition, immutable thereafter.
#[derive(Clone, Debug)]
pub struct Submission {
    pub name: Vec<u8>,
    pub handle: Vec<u8>,
    pub team: TeamId,
    pub images: Vec<Vec<u8>>,
    pub texts: Vec<Vec<u8>>,
}

/// Builds the submission record from everything the conversation
/// collected: image items become the `images` sequence and text items
/// the `texts` sequence, each in arrival order.  Zero collected items
/// still produce a record, with both sequences empty.
pub fn build_submission(name: Vec<u8>, handle: Vec<u8>, team: TeamId, items: &Vec<Item>) -> (s:
    Submission)
    ensures
        s.name@ == name@,
        s.handle@ == handle@,
        s.team == team,
        seq_views(s.images@) == images_of(item_views(items@)),
        seq_views(s.texts@) == texts_of(item_views(items@)),
{
    let mut images: Vec<Vec<u8>> = Vec::new();
    let mut texts: Vec<Vec<u8>> = Vec::new();
    let mut i: usize = 0;
    proof {
        assert(item_views(items@.subrange(0, 0)) =~= Seq::<ItemV>::empty());
        assert(seq_views(images@) =~= Seq::<Seq<u8>>::empty());
        assert(seq_views(texts@) =~= Seq::<Seq<u8>>::empty());
    }
    while i < items.len()
        invariant
            i <= items@.len(),
            seq_views(images@) == images_of(item_views(items@.subrange(0, i as int))),
            seq_views(texts@) == texts_of(item_views(items@.subrange(0, i as int))),
        decreases items@.len() - i,
    {
        proof {
            assert(item_views(items@.subrange(0, i + 1)).drop_last() =~= item_views(
                items@.subrange(0, i as int),
            ));
            assert(item_views(items@.subrange(0, i + 1)).last() == items@[i as int]@);
        }
        match &items[i] {
            Item::Text(v) => {
                let c = clone_bytes(v);
                proof {
                    lemma_seq_views_push(texts@, c);
                }
                texts.push(c);
                proof {
                    assert(seq_views(texts@) =~= texts_of(item_views(items@.subrange(0, i + 1))));
                }
            },
            Item::ImageRef(v) => {
                let c = clone_bytes(v);
                proof {
                    lemma_seq_views_push(images@, c);
                }
                images.push(c);
                proof {
                    assert(seq_views(images@) =~= images_of(item_views(items@.subrange(0, i + 1))));
                }
            },
        }
        i = i + 1;
    }
    proof {
        assert(items@.subrange(0, items@.len() as int) =~= items@);
    }
    Submission { name, handle, team, images, texts }
}

} // verus!
