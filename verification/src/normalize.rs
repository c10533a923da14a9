//! The tag normalizer: reducing a decoded tag list to one canonical record.
//!
//! A fixed one-to-one table maps eight recognized standard keys onto record
//! fields.  Tags are applied in input order with plain overwrite semantics,
//! so when several tags target the same field the last one wins.  Two keys
//! (`Date`, `TrackNumber`) are recognized but deliberately ignored here: the
//! year comes from the separate heuristic over the free-form vendor fields,
//! and the track number is reported separately by the decoder.  Every other
//! standard key, and every tag without one, is silently ignored, so
//! normalization is total and cannot fail.

use vstd::prelude::*;

use crate::metadata::AudioMetadata;
use crate::metadata::MetaView;
use crate::metadata::RawTag;
use crate::metadata::StandardKey;
use crate::metadata::TagView;
use crate::metadata::default_meta;
use crate::year::year_from_tags;
use crate::year::year_of;

verus! {

/// A canonical record field that the standard-key table can target.
#[derive(Clone, Copy, Debug, PartialEq, Eq, Structural)]
pub enum CanonicalField {
    Name,
    Artist,
    Album,
    AlbumArtist,
    Composer,
    DiscNumber,
    Genres,
    Comment,
}

/// The fixed one-to-one mapping table from recognized standard keys to
/// canonical fields.  `Date` and `TrackNumber` are recognized but mapped to
/// nothing, as is every key outside the table.
pub open spec fn target_field(k: StandardKey) -> Option<CanonicalField> {
    match k {
        StandardKey::Album => Some(CanonicalField::Album),
        StandardKey::AlbumArtist => Some(CanonicalField::AlbumArtist),
        StandardKey::Artist => Some(CanonicalField::Artist),
        StandardKey::Comment => Some(CanonicalField::Comment),
        StandardKey::Composer => Some(CanonicalField::Composer),
        StandardKey::DiscNumber => Some(CanonicalField::DiscNumber),
        StandardKey::Genre => Some(CanonicalField::Genres),
        StandardKey::TrackTitle => Some(CanonicalField::Name),
        _ => None,
    }
}

/// The record with the targetable field `f` overwritten by `v`.
pub open spec fn set_field(m: MetaView, f: CanonicalField, v: Seq<char>) -> MetaView {
    match f {
        CanonicalField::Name => MetaView { name: v, ..m },
        CanonicalField::Artist => MetaView { artist: v, ..m },
        CanonicalField::Album => MetaView { album: v, ..m },
        CanonicalField::AlbumArtist => MetaView { album_artist: v, ..m },
        CanonicalField::Composer => MetaView { composer: v, ..m },
        CanonicalField::DiscNumber => MetaView { disc_number: v, ..m },
        CanonicalField::Genres => MetaView { genres: v, ..m },
        CanonicalField::Comment => MetaView { comment: v, ..m },
    }
}

/// The value the record holds in the targetable field `f`.
pub open spec fn get_field(m: MetaView, f: CanonicalField) -> Seq<char> {
    match f {
        CanonicalField::Name => m.name,
        CanonicalField::Artist => m.artist,
        CanonicalField::Album => m.album,
        CanonicalField::AlbumArtist => m.album_artist,
        CanonicalField::Composer => m.composer,
        CanonicalField::DiscNumber => m.disc_number,
        CanonicalField::Genres => m.genres,
        CanonicalField::Comment => m.comment,
    }
}

/// The tag `t` carries a standard key that the table maps to field `f`.
pub open spec fn tag_targets(t: TagView, f: CanonicalField) -> bool {
    match t.std_key {
        Some(k) => target_field(k) == Some(f),
        None => false,
    }
}

/// What one tag does to the record: overwrite its targeted field, or nothing
/// when its key is absent or unmapped.
pub open spec fn apply_tag(m: MetaView, t: TagView) -> MetaView {
    match t.std_key {
        Some(k) => match target_field(k) {
            Some(f) => set_field(m, f, t.value),
            None => m,
        },
        None => m,
    }
}

/// The record after the standard-key mapping pass: every tag applied to the
/// all-defaults record in input order.
pub open spec fn mapped_fields(tags: Seq<TagView>) -> MetaView
    decreases tags.len(),
{
    if tags.len() == 0 {
        default_meta()
    } else {
        apply_tag(mapped_fields(tags.drop_last()), tags.last())
    }
}

/// The canonical record a tag list normalizes to: the standard-key mapping
/// pass, with the year filled in by the heuristic over the vendor fields.
pub open spec fn normalize_spec(tags: Seq<TagView>) -> MetaView {
    MetaView { year: year_of(tags), ..mapped_fields(tags) }
}

/// Reduces a decoded tag list to the canonical record.  Total: no input
/// fails; absent or malformed sources collapse to the defaults.
pub fn normalize(tags: &Vec<RawTag>) -> (m: AudioMetadata)
    ensures
        m@ == normalize_spec(tags.deep_view()),
{
    let ghost views = tags.deep_view();
    let mut m = AudioMetadata::default();
    proof {
        assert(views.take(0) =~= Seq::<TagView>::empty());
    }
    let mut i: usize = 0;
    while i < tags.len()
        invariant
            views == tags.deep_view(),
            views.len() == tags@.len(),
            0 <= i <= tags.len(),
            m@ == mapped_fields(views.take(i as int)),
        decreases tags.len() - i,
    {
        let tag = &tags[i];
        proof {
            assert(views[i as int] == tags@[i as int].deep_view());
            assert(views.take(i + 1).drop_last() =~= views.take(i as int));
            assert(views.take(i + 1).last() == views[i as int]);
        }
        if let Some(k) = tag.std_key {
            match k {
                StandardKey::Album => m.album = tag.value.clone(),
                StandardKey::AlbumArtist => m.album_artist = tag.value.clone(),
                StandardKey::Artist => m.artist = tag.value.clone(),
                StandardKey::Comment => m.comment = tag.value.clone(),
                StandardKey::Composer => m.composer = tag.value.clone(),
                StandardKey::DiscNumber => m.disc_number = tag.value.clone(),
                StandardKey::Genre => m.genres = tag.value.clone(),
                StandardKey::TrackTitle => m.name = tag.value.clone(),
                _ => {},
            }
        }
        i = i + 1;
    }
    proof {
        assert(views.take(tags@.len() as int) =~= views);
    }
    m.year = year_from_tags(tags);
    m
}

/// Law: every empty raw-tag sequence normalizes to the all-defaults record.
pub proof fn lemma_normalize_empty(tags: Seq<TagView>)
    requires
        tags.len() == 0,
    ensures
        normalize_spec(tags) == default_meta(),
{
    assert(year_of(tags) == 0);
}

/// A tag that does not target `f` leaves the field `f` unchanged.
proof fn lemma_apply_tag_preserves_field(m: MetaView, t: TagView, f: CanonicalField)
    requires
        !tag_targets(t, f),
    ensures
        get_field(apply_tag(m, t), f) == get_field(m, f),
{
}

/// The mapping pass gives field `f` the value of the last tag targeting it.
proof fn lemma_last_tag_wins_mapped(tags: Seq<TagView>, j: int, f: CanonicalField)
    requires
        0 <= j < tags.len(),
        tag_targets(tags[j], f),
        forall|k: int| j < k < tags.len() ==> !tag_targets(#[trigger] tags[k], f),
    ensures
        get_field(mapped_fields(tags), f) == tags[j].value,
    decreases tags.len(),
{
    if j == tags.len() - 1 {
        assert(tags.last() == tags[j]);
    } else {
        let prefix = tags.drop_last();
        assert(prefix[j] == tags[j]);
        assert(forall|k: int| j < k < prefix.len() ==> !tag_targets(#[trigger] prefix[k], f));
        lemma_last_tag_wins_mapped(prefix, j, f);
        lemma_apply_tag_preserves_field(mapped_fields(prefix), tags.last(), f);
    }
}

/// Law: when several tags map to the same canonical field, the field holds
/// the value of the one that appears latest in input order — plain overwrite
/// semantics, no merging.  `j` is the position of the last tag targeting `f`.
pub proof fn lemma_last_tag_wins(tags: Seq<TagView>, j: int, f: CanonicalField)
    requires
        0 <= j < tags.len(),
        tag_targets(tags[j], f),
        forall|k: int| j < k < tags.len() ==> !tag_targets(#[trigger] tags[k], f),
    ensures
        get_field(normalize_spec(tags), f) == tags[j].value,
{
    lemma_last_tag_wins_mapped(tags, j, f);
}

/// Law: a tag whose standard key lies outside the fixed mapping table, or
/// that carries no standard key at all, leaves the record untouched;
/// normalization never fails on such a tag.
pub proof fn lemma_unhandled_key_ignored(m: MetaView, t: TagView)
    requires
        forall|f: CanonicalField| !tag_targets(t, f),
    ensures
        apply_tag(m, t) == m,
{
    if let Some(k) = t.std_key {
        if let Some(f) = target_field(k) {
            assert(tag_targets(t, f));
        }
    }
}

} // verus!
