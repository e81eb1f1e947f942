//! Resolving a user-given speaker name or id to a style id.
use vstd::prelude::*;
use vstd::string::StringExecFns;
use crate::decimal::{decimal_text, lemma_parse_decimal_round_trip, parse_u32, parsed_u32};
use crate::error::VoxmixError;
use crate::types::{Speaker, SpeakerStyle};

verus! {

/// The composite label of a style: the speaker's name, then the style's name
/// in full-width parentheses, as in `四国めたん（あまあま）`.
pub open spec fn style_label(speaker_name: Seq<char>, style_name: Seq<char>) -> Seq<char> {
    speaker_name + seq!['（'] + style_name + seq!['）']
}

/// The id of the first style, in list order, whose composite label is `target`.
pub open spec fn label_match(styles: Seq<SpeakerStyle>, speaker_name: Seq<char>, target: Seq<char>) -> Option<u32>
    decreases styles.len(),
{
    if styles.len() == 0 {
        None
    } else if style_label(speaker_name, styles[0].name@) == target {
        Some(styles[0].id)
    } else {
        label_match(styles.drop_first(), speaker_name, target)
    }
}

/// The first style of the first speaker, in list order, whose name is
/// `target` and who has a style.
pub open spec fn bare_name_match(speakers: Seq<Speaker>, target: Seq<char>) -> Option<u32>
    decreases speakers.len(),
{
    if speakers.len() == 0 {
        None
    } else if speakers[0].name@ == target && speakers[0].styles@.len() > 0 {
        Some(speakers[0].styles@[0].id)
    } else {
        bare_name_match(speakers.drop_first(), target)
    }
}

/// The style, over speakers and then their styles in list order, whose
/// composite label is `target`.
pub open spec fn label_lookup(speakers: Seq<Speaker>, target: Seq<char>) -> Option<u32>
    decreases speakers.len(),
{
    if speakers.len() == 0 {
        None
    } else {
        match label_match(speakers[0].styles@, speakers[0].name@, target) {
            Some(id) => Some(id),
            None => label_lookup(speakers.drop_first(), target),
        }
    }
}

/// What the speaker list answers to `target`: the bare-name rule over all
/// speakers first, and the composite-label rule only where it finds nothing.
pub open spec fn lookup_speaker(speakers: Seq<Speaker>, target: Seq<char>) -> Option<u32> {
    match bare_name_match(speakers, target) {
        Some(id) => Some(id),
        None => label_lookup(speakers, target),
    }
}

/// The style id that `name` resolves to against `speakers`: a decimal id is
/// taken as it is; a name is looked up; nothing found is `None`.
pub open spec fn resolved_id(speakers: Seq<Speaker>, name: Seq<char>) -> Option<u32> {
    match parsed_u32(name) {
        Some(id) => Some(id),
        None => lookup_speaker(speakers, name),
    }
}

/// A name that parses as a decimal id resolves to that id, whatever the
/// speaker list holds: the list is not consulted.
pub proof fn lemma_numeric_id_ignores_speakers(speakers: Seq<Speaker>, other: Seq<Speaker>, name: Seq<char>)
    requires
        parsed_u32(name) is Some,
    ensures
        resolved_id(speakers, name) == parsed_u32(name),
        resolved_id(speakers, name) == resolved_id(other, name),
{
}

/// Every non-negative id written in decimal resolves to itself against any
/// speaker list.
pub proof fn lemma_decimal_id_resolves_to_itself(speakers: Seq<Speaker>, id: u32)
    ensures
        resolved_id(speakers, decimal_text(id as nat)) == Some(id),
{
    lemma_parse_decimal_round_trip(id);
}

/// Builds the composite label of a style.
pub fn style_label_string(speaker_name: &str, style_name: &str) -> (r: String)
    ensures
        r@ == style_label(speaker_name@, style_name@),
{
    proof {
        reveal_strlit("（");
        reveal_strlit("）");
    }
    String::from_str(speaker_name).concat("（").concat(style_name).concat("）")
}

/// Searches `speakers` for `name`: first by bare name over every speaker
/// (its first style), then, where no name matches, by composite label over
/// every speaker's styles (that style), each in list order.
pub fn find_speaker_id(speakers: &Vec<Speaker>, name: &str) -> (r: Option<u32>)
    ensures
        r == lookup_speaker(speakers@, name@),
{
    let target = String::from_str(name);
    let n = speakers.len();
    let mut i: usize = 0;
    assert(speakers@.subrange(0, n as int) =~= speakers@);
    while i < n
        invariant
            n == speakers@.len(),
            i <= n,
            target@ == name@,
            bare_name_match(speakers@, name@) == bare_name_match(
                speakers@.subrange(i as int, n as int),
                name@,
            ),
        decreases n - i,
    {
        let speaker = &speakers[i];
        let rest = Ghost(speakers@.subrange(i as int, n as int));
        assert(rest@[0] == *speaker);
        assert(rest@.drop_first() =~= speakers@.subrange(i as int + 1, n as int));
        if speaker.name == target && speaker.styles.len() > 0 {
            return Some(speaker.styles[0].id);
        }
        i = i + 1;
    }
    assert(speakers@.subrange(n as int, n as int) =~= Seq::<Speaker>::empty());
    let mut i: usize = 0;
    while i < n
        invariant
            n == speakers@.len(),
            i <= n,
            target@ == name@,
            bare_name_match(speakers@, name@) is None,
            label_lookup(speakers@, name@) == label_lookup(
                speakers@.subrange(i as int, n as int),
                name@,
            ),
        decreases n - i,
    {
        let speaker = &speakers[i];
        let rest = Ghost(speakers@.subrange(i as int, n as int));
        assert(rest@[0] == *speaker);
        assert(rest@.drop_first() =~= speakers@.subrange(i as int + 1, n as int));
        let m = speaker.styles.len();
        let mut j: usize = 0;
        assert(speaker.styles@.subrange(0, m as int) =~= speaker.styles@);
        while j < m
            invariant
                m == speaker.styles@.len(),
                i < n,
                n == speakers@.len(),
                bare_name_match(speakers@, name@) is None,
                label_lookup(speakers@, name@) == label_lookup(rest@, name@),
                rest@.len() > 0,
                rest@[0] == *speaker,
                rest@.drop_first() == speakers@.subrange(i as int + 1, n as int),
                j <= m,
                target@ == name@,
                label_match(speaker.styles@, speaker.name@, name@) == label_match(
                    speaker.styles@.subrange(j as int, m as int),
                    speaker.name@,
                    name@,
                ),
            decreases m - j,
        {
            let style = &speaker.styles[j];
            let srest = Ghost(speaker.styles@.subrange(j as int, m as int));
            assert(srest@[0] == *style);
            assert(srest@.drop_first() =~= speaker.styles@.subrange(j as int + 1, m as int));
            let label = style_label_string(speaker.name.as_str(), style.name.as_str());
            if label == target {
                return Some(style.id);
            }
            j = j + 1;
        }
        assert(speaker.styles@.subrange(m as int, m as int) =~= Seq::<SpeakerStyle>::empty());
        i = i + 1;
    }
    assert(speakers@.subrange(n as int, n as int) =~= Seq::<Speaker>::empty());
    None
}

/// Resolves `name` against `speakers`: a decimal id is returned as it is,
/// without looking at the list; otherwise the bare-name and composite-label
/// rules apply, and a name that matches nothing is `SpeakerNotFound`,
/// carrying `name`.
pub fn resolve_in(speakers: &Vec<Speaker>, name: &str) -> (r: Result<u32, VoxmixError>)
    ensures
        resolved_id(speakers@, name@) matches Some(id) ==> r == Ok::<u32, VoxmixError>(id),
        resolved_id(speakers@, name@) is None ==> (r matches Err(VoxmixError::SpeakerNotFound(
            m,
        )) && m@ == name@),
{
    match parse_u32(name) {
        Some(id) => Ok(id),
        None => match find_speaker_id(speakers, name) {
            Some(id) => Ok(id),
            None => Err(VoxmixError::SpeakerNotFound(String::from_str(name))),
        },
    }
}

} // verus!
