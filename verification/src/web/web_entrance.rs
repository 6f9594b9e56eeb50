//! What the listing endpoints answer: the backends that are switched on,
//! the voices of a backend, the styles of a voice and the audio formats.

use crate::cmd::ApiSwitches;
use crate::origin::MsApiOrigin;
use crate::request::MS_TTS_QUALITY_LIST;
use crate::text::opt_text;
use crate::voices::{offers_name, VoicesItem, VoicesList};
use crate::web::controller::{styles_of, voice_styles};
use vstd::prelude::*;

verus! {

/// The kind of a parameter of the interface.
#[derive(Debug, Clone, Copy, PartialEq, Eq, Structural)]
pub enum ParamType {
    String,
    Float,
    List,
}

/// One entry of a list that the interface offers for choosing.
#[derive(Debug)]
pub struct ListDataItem {
    pub key: String,
    pub desc: String,
}

/// The values of a list of entries.
pub open spec fn item_views(items: Seq<ListDataItem>) -> Seq<(Seq<char>, Seq<char>)> {
    Seq::new(items.len(), |i: int| (items[i].key@, items[i].desc@))
}

/// Whether a backend is switched on.
pub fn is_enabled(origin: MsApiOrigin, switches: ApiSwitches) -> (r: bool)
    ensures
        r == match origin {
            MsApiOrigin::EdgeFree => !switches.close_edge_free_api,
            MsApiOrigin::OfficialPreview => !switches.close_official_preview_api,
            MsApiOrigin::Subscription => !switches.close_official_subscribe_api,
        },
{
    match origin {
        MsApiOrigin::EdgeFree => !switches.close_edge_free_api,
        MsApiOrigin::OfficialPreview => !switches.close_official_preview_api,
        MsApiOrigin::Subscription => !switches.close_official_subscribe_api,
    }
}

/// The path under which the interface offers a backend; the preview
/// backend is not offered.
pub open spec fn api_path(origin: MsApiOrigin) -> Option<Seq<char>> {
    match origin {
        MsApiOrigin::EdgeFree => Some("/api/tts-ms-edge"@),
        MsApiOrigin::OfficialPreview => None,
        MsApiOrigin::Subscription => Some("/api/tts-ms-subscribe"@),
    }
}

/// The path under which the interface offers a backend.
pub fn api_url(origin: MsApiOrigin) -> (r: Option<String>)
    ensures
        opt_text(r) == api_path(origin),
{
    match origin {
        MsApiOrigin::EdgeFree => Some("/api/tts-ms-edge".to_owned()),
        MsApiOrigin::OfficialPreview => None,
        MsApiOrigin::Subscription => Some("/api/tts-ms-subscribe".to_owned()),
    }
}

/// The backends that the interface lists: the Edge backend, then the
/// subscription backend, each if it is switched on.
pub open spec fn listed_apis(switches: ApiSwitches) -> Seq<MsApiOrigin> {
    let edge = if switches.close_edge_free_api {
        Seq::empty()
    } else {
        seq![MsApiOrigin::EdgeFree]
    };
    if switches.close_official_subscribe_api {
        edge
    } else {
        edge.push(MsApiOrigin::Subscription)
    }
}

/// The backends that the interface lists.
pub fn get_api_list(switches: ApiSwitches) -> (r: Vec<MsApiOrigin>)
    ensures
        r@ == listed_apis(switches),
{
    let mut api_list: Vec<MsApiOrigin> = Vec::new();
    if !switches.close_edge_free_api {
        api_list.push(MsApiOrigin::EdgeFree);
    }
    if !switches.close_official_subscribe_api {
        api_list.push(MsApiOrigin::Subscription);
    }
    assert(api_list@ =~= listed_apis(switches));
    api_list
}

/// The entries for the voices of a catalog: the short name as key, the
/// describing line as description, in the order of the catalog.
pub open spec fn informant_items(catalog: Seq<VoicesItem>) -> Seq<(Seq<char>, Seq<char>)> {
    Seq::new(catalog.len(), |i: int| (catalog[i].spec_short_name(), catalog[i].spec_desc()))
}

/// The entries for the voices of a catalog.
pub fn get_ms_tts_informant(voices: &VoicesList) -> (r: Vec<ListDataItem>)
    ensures
        item_views(r@) == informant_items(voices.raw_data@),
{
    let mut list: Vec<ListDataItem> = Vec::new();
    let mut i: usize = 0;
    while i < voices.raw_data.len()
        invariant
            i <= voices.raw_data@.len(),
            list@.len() == i,
            forall|k: int|
                0 <= k < i ==> list@[k].key@ == voices.raw_data@[k].spec_short_name()
                    && list@[k].desc@ == voices.raw_data@[k].spec_desc(),
        decreases voices.raw_data@.len() - i,
    {
        let voice = &voices.raw_data[i];
        list.push(ListDataItem { key: voice.get_short_name(), desc: voice.get_desc() });
        i += 1;
    }
    assert(item_views(list@) =~= informant_items(voices.raw_data@));
    list
}

/// The entries for the audio formats: the format as key, no description.
pub open spec fn quality_items() -> Seq<(Seq<char>, Seq<char>)> {
    Seq::new(32, |i: int| (MS_TTS_QUALITY_LIST[i]@, Seq::<char>::empty()))
}

/// The entries for the audio formats.
pub fn get_ms_tts_quality() -> (r: Vec<ListDataItem>)
    ensures
        item_views(r@) == quality_items(),
{
    let mut list: Vec<ListDataItem> = Vec::new();
    let mut i: usize = 0;
    while i < 32
        invariant
            i <= 32,
            list@.len() == i,
            forall|k: int|
                0 <= k < i ==> list@[k].key@ == MS_TTS_QUALITY_LIST[k]@ && list@[k].desc@
                    == Seq::<char>::empty(),
        decreases 32 - i,
    {
        list.push(ListDataItem { key: MS_TTS_QUALITY_LIST[i].to_owned(), desc: String::new() });
        i += 1;
    }
    assert(item_views(list@) =~= quality_items());
    list
}

/// The styles offered for a voice: `general` first, then those that the
/// voice advertises.
pub open spec fn style_keys(styles: Option<Seq<Seq<char>>>) -> Seq<Seq<char>> {
    match styles {
        Some(list) => seq!["general"@] + list,
        None => seq!["general"@],
    }
}

/// The entries for the styles of a voice: the style as key, no description.
pub open spec fn style_items(styles: Option<Seq<Seq<char>>>) -> Seq<(Seq<char>, Seq<char>)> {
    Seq::new(style_keys(styles).len(), |i: int| (style_keys(styles)[i], Seq::<char>::empty()))
}

/// The entries for the styles of the catalog's voice of this name. A
/// voice that the catalog does not offer has no entries to show.
pub fn get_ms_tts_style(voices: &VoicesList, informant: &str) -> (r: Option<Vec<ListDataItem>>)
    ensures
        r is Some <==> offers_name(voices.raw_data@, informant@),
        r matches Some(items) ==> item_views(items@) == style_items(
            styles_of(voices.raw_data@, informant@),
        ),
{
    if !voices.contains(informant) {
        return None;
    }
    let styles = voice_styles(voices, informant);
    let ghost keys = style_keys(styles_of(voices.raw_data@, informant@));
    let mut list: Vec<ListDataItem> = Vec::new();
    list.push(ListDataItem { key: "general".to_owned(), desc: String::new() });
    if let Some(advertised) = styles {
        let mut i: usize = 0;
        while i < advertised.len()
            invariant
                i <= advertised@.len(),
                keys.len() == advertised@.len() + 1,
                forall|k: int| 0 <= k < advertised@.len() ==> keys[k + 1] == advertised@[k]@,
                keys[0] == "general"@,
                list@.len() == i + 1,
                forall|k: int|
                    0 <= k < list@.len() ==> list@[k].key@ == keys[k] && list@[k].desc@
                        == Seq::<char>::empty(),
            decreases advertised@.len() - i,
        {
            list.push(ListDataItem { key: advertised[i].clone(), desc: String::new() });
            i += 1;
        }
    }
    assert(item_views(list@) =~= style_items(styles_of(voices.raw_data@, informant@)));
    Some(list)
}

} // verus!
