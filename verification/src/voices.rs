//! The voices that a backend offers, and the catalog in which they are looked up.

use crate::text::{clone_strings, str_eq, texts};
use vstd::prelude::*;
use vstd::string::StringExecFns;

verus! {

/// One voice, as the subscription service or the Edge service describes it.
#[derive(Debug)]
pub enum VoicesItem {
    AzureApi {
        name: String,
        display_name: String,
        local_name: String,
        short_name: String,
        gender: String,
        locale: String,
        locale_name: String,
        style_list: Option<Vec<String>>,
        sample_rate_hertz: String,
        voice_type: String,
        status: String,
        role_play_list: Option<Vec<String>>,
        words_per_minute: Option<String>,
    },
    EdgeApi {
        name: String,
        short_name: String,
        gender: String,
        locale: String,
        suggested_codec: String,
        friendly_name: String,
        status: String,
        voice_tag: Vec<(String, Vec<String>)>,
    },
}

/// The values filed under the first tag of this name, if there is such a tag.
pub open spec fn tag_values(tags: Seq<(String, Vec<String>)>, key: Seq<char>) -> Option<
    Seq<Seq<char>>,
>
    decreases tags.len(),
{
    if tags.len() == 0 {
        None
    } else if tags[0].0@ == key {
        Some(texts(tags[0].1@))
    } else {
        tag_values(tags.drop_first(), key)
    }
}

/// Looks up the values filed under the first tag of this name.
pub fn lookup_tag(tags: &Vec<(String, Vec<String>)>, key: &str) -> (r: Option<Vec<String>>)
    ensures
        match r {
            Some(list) => tag_values(tags@, key@) == Some(texts(list@)),
            None => tag_values(tags@, key@) is None,
        },
{
    let mut i: usize = 0;
    assert(tags@.skip(0) =~= tags@);
    while i < tags.len()
        invariant
            i <= tags@.len(),
            tag_values(tags@, key@) == tag_values(tags@.skip(i as int), key@),
        decreases tags@.len() - i,
    {
        let ghost rest = tags@.skip(i as int);
        assert(rest[0] == tags@[i as int]);
        assert(rest.drop_first() =~= tags@.skip(i + 1));
        if str_eq(tags[i].0.as_str(), key) {
            return Some(clone_strings(&tags[i].1));
        }
        i += 1;
    }
    None
}

impl VoicesItem {
    /// The short name, by which requests and the markup name the voice.
    pub open spec fn spec_short_name(self) -> Seq<char> {
        match self {
            VoicesItem::AzureApi { short_name, .. } => short_name@,
            VoicesItem::EdgeApi { short_name, .. } => short_name@,
        }
    }

    /// The locale of the voice.
    pub open spec fn spec_local(self) -> Seq<char> {
        match self {
            VoicesItem::AzureApi { locale, .. } => locale@,
            VoicesItem::EdgeApi { locale, .. } => locale@,
        }
    }

    /// The styles that the voice advertises: its style list, or for an Edge
    /// voice what its tags file under `ContentCategories`.
    pub open spec fn spec_style(self) -> Option<Seq<Seq<char>>> {
        match self {
            VoicesItem::AzureApi { style_list, .. } => match style_list {
                Some(list) => Some(texts(list@)),
                None => None,
            },
            VoicesItem::EdgeApi { voice_tag, .. } => tag_values(voice_tag@, "ContentCategories"@),
        }
    }

    /// The line that describes the voice to a user.
    pub open spec fn spec_desc(self) -> Seq<char> {
        match self {
            VoicesItem::AzureApi { voice_type, local_name, display_name, .. } => if voice_type@
                == "Neural"@ {
                "Microsoft "@ + display_name@ + " Online (Natural) - "@ + local_name@
            } else {
                "Microsoft "@ + display_name@ + " Online - "@ + local_name@
            },
            VoicesItem::EdgeApi { friendly_name, .. } => friendly_name@,
        }
    }

    /// Two descriptions are of the same voice: they come from the same
    /// service and carry the same short name.
    pub open spec fn same_voice(self, other: VoicesItem) -> bool {
        match self {
            VoicesItem::AzureApi { short_name, .. } => other is AzureApi
                && other.spec_short_name() == short_name@,
            VoicesItem::EdgeApi { short_name, .. } => other is EdgeApi && other.spec_short_name()
                == short_name@,
        }
    }

    /// The short name of the voice.
    pub fn get_short_name(&self) -> (r: String)
        ensures
            r@ == self.spec_short_name(),
    {
        match self {
            VoicesItem::AzureApi { short_name, .. } => short_name.clone(),
            VoicesItem::EdgeApi { short_name, .. } => short_name.clone(),
        }
    }

    /// The locale of the voice.
    pub fn get_local(&self) -> (r: &str)
        ensures
            r@ == self.spec_local(),
    {
        match self {
            VoicesItem::AzureApi { locale, .. } => locale.as_str(),
            VoicesItem::EdgeApi { locale, .. } => locale.as_str(),
        }
    }

    /// The styles that the voice advertises, if it advertises any list.
    pub fn get_style(&self) -> (r: Option<Vec<String>>)
        ensures
            match r {
                Some(list) => self.spec_style() == Some(texts(list@)),
                None => self.spec_style() is None,
            },
    {
        match self {
            VoicesItem::AzureApi { style_list, .. } => match style_list {
                Some(list) => Some(clone_strings(list)),
                None => None,
            },
            VoicesItem::EdgeApi { voice_tag, .. } => lookup_tag(voice_tag, "ContentCategories"),
        }
    }

    /// The line that describes the voice to a user.
    pub fn get_desc(&self) -> (r: String)
        ensures
            r@ == self.spec_desc(),
    {
        match self {
            VoicesItem::AzureApi { voice_type, local_name, display_name, .. } => {
                let mut out = "Microsoft ".to_owned();
                out.append(display_name.as_str());
                if str_eq(voice_type.as_str(), "Neural") {
                    out.append(" Online (Natural) - ");
                } else {
                    out.append(" Online - ");
                }
                out.append(local_name.as_str());
                out
            },
            VoicesItem::EdgeApi { friendly_name, .. } => friendly_name.clone(),
        }
    }

    /// Whether two descriptions are of the same voice.
    pub fn eq(&self, other: &Self) -> (r: bool)
        ensures
            r == self.same_voice(*other),
    {
        match self {
            VoicesItem::AzureApi { short_name: short_name1, .. } => {
                if let VoicesItem::AzureApi { short_name: short_name2, .. } = other {
                    str_eq(short_name1.as_str(), short_name2.as_str())
                } else {
                    false
                }
            },
            VoicesItem::EdgeApi { short_name: short_name1, .. } => {
                if let VoicesItem::EdgeApi { short_name: short_name2, .. } = other {
                    str_eq(short_name1.as_str(), short_name2.as_str())
                } else {
                    false
                }
            },
        }
    }
}

/// The list holds a description of the same voice.
pub open spec fn offers(list: Seq<VoicesItem>, voice: VoicesItem) -> bool {
    exists|i: int| 0 <= i < list.len() && voice.same_voice(#[trigger] list[i])
}

/// The list holds a voice of this short name.
pub open spec fn offers_name(list: Seq<VoicesItem>, name: Seq<char>) -> bool {
    exists|i: int| 0 <= i < list.len() && (#[trigger] list[i]).spec_short_name() == name
}

/// Every one of the lists holds a description of the same voice.
pub open spec fn offered_by_all(lists: Seq<Vec<VoicesItem>>, voice: VoicesItem) -> bool {
    forall|k: int| 0 <= k < lists.len() ==> offers(#[trigger] lists[k]@, voice)
}

/// The voices that every one of the lists offers: those of the first list
/// that each list holds, in the order of the first list.
pub open spec fn mixed_voices(lists: Seq<Vec<VoicesItem>>) -> Seq<VoicesItem> {
    lists[0]@.filter(|voice: VoicesItem| offered_by_all(lists, voice))
}

/// Whether the list holds a description of the same voice.
pub fn list_offers(list: &Vec<VoicesItem>, voice: &VoicesItem) -> (r: bool)
    ensures
        r == offers(list@, *voice),
{
    let mut i: usize = 0;
    while i < list.len()
        invariant
            i <= list@.len(),
            forall|k: int| 0 <= k < i ==> !voice.same_voice(#[trigger] list@[k]),
        decreases list@.len() - i,
    {
        if voice.eq(&list[i]) {
            return true;
        }
        i += 1;
    }
    false
}

fn all_offer(lists: &Vec<Vec<VoicesItem>>, voice: &VoicesItem) -> (r: bool)
    ensures
        r == offered_by_all(lists@, *voice),
{
    let mut k: usize = 0;
    while k < lists.len()
        invariant
            k <= lists@.len(),
            forall|m: int| 0 <= m < k ==> offers(#[trigger] lists@[m]@, *voice),
        decreases lists@.len() - k,
    {
        if !list_offers(&lists[k], voice) {
            return false;
        }
        k += 1;
    }
    true
}

/// The catalog that several credentials have in common: the voices that
/// the catalog of every credential offers. Without any catalog there is none.
pub fn intersect_voices(lists: Vec<Vec<VoicesItem>>) -> (r: Option<Vec<VoicesItem>>)
    ensures
        r is Some <==> lists@.len() > 0,
        r matches Some(voices) ==> voices@ == mixed_voices(lists@),
{
    if lists.len() == 0 {
        return None;
    }
    let mut lists = lists;
    let ghost all = lists@;
    let ghost keep = |voice: VoicesItem| offered_by_all(all, voice);
    let mut first = lists.remove(0);
    let ghost whole = first@;
    let mut out: Vec<VoicesItem> = Vec::new();
    let ghost mut done: int = 0;
    assert(whole.take(0) =~= Seq::<VoicesItem>::empty());
    assert(whole.take(0).filter(keep) =~= Seq::<VoicesItem>::empty()) by {
        reveal(Seq::filter);
    }
    assert(whole.skip(0) =~= whole);
    while first.len() > 0
        invariant
            whole == all[0]@,
            lists@ == all.remove(0),
            all.len() > 0,
            keep == |voice: VoicesItem| offered_by_all(all, voice),
            0 <= done <= whole.len(),
            first@ == whole.skip(done),
            out@ == whole.take(done).filter(keep),
        decreases first@.len(),
    {
        let voice = first.remove(0);
        assert(voice == whole[done]);
        let kept = all_offer(&lists, &voice);
        assert(kept == keep(voice)) by {
            if kept {
                assert forall|k: int| 0 <= k < all.len() implies offers(
                    #[trigger] all[k]@,
                    voice,
                ) by {
                    if k == 0 {
                        assert(voice.same_voice(whole[done]));
                    } else {
                        assert(all[k] == lists@[k - 1]);
                    }
                }
            } else {
                if offered_by_all(all, voice) {
                    assert forall|m: int| 0 <= m < lists@.len() implies offers(
                        #[trigger] lists@[m]@,
                        voice,
                    ) by {
                        assert(lists@[m] == all[m + 1]);
                    }
                }
            }
        }
        proof {
            let next = whole.take(done + 1);
            assert(next.drop_last() =~= whole.take(done));
            assert(next.last() == voice);
            reveal(Seq::filter);
            assert(first@ =~= whole.skip(done + 1));
        }
        if kept {
            out.push(voice);
        }
        proof {
            done = done + 1;
        }
    }
    assert(whole.take(done) =~= whole);
    Some(out)
}

/// All the catalogs describe their voices as one and the same service does.
pub open spec fn of_one_service(lists: Seq<Vec<VoicesItem>>) -> bool {
    forall|k: int, i: int, m: int, j: int|
        0 <= k < lists.len() && 0 <= i < lists[k]@.len() && 0 <= m < lists.len() && 0 <= j
            < lists[m]@.len() ==> ((#[trigger] lists[k]@[i]) is AzureApi) == ((
        #[trigger] lists[m]@[j]) is AzureApi)
}

/// Where all the catalogs come from one service, the common catalog
/// offers exactly the short names that every catalog offers.
pub proof fn lemma_mixed_voices_by_name(lists: Seq<Vec<VoicesItem>>, name: Seq<char>)
    requires
        lists.len() > 0,
        of_one_service(lists),
    ensures
        offers_name(mixed_voices(lists), name) <==> forall|k: int|
            0 <= k < lists.len() ==> offers_name(#[trigger] lists[k]@, name),
{
    let keep = |voice: VoicesItem| offered_by_all(lists, voice);
    let first = lists[0]@;
    let mixed = mixed_voices(lists);
    if offers_name(mixed, name) {
        let i = choose|i: int| 0 <= i < mixed.len() && (#[trigger] mixed[i]).spec_short_name() == name;
        let voice = mixed[i];
        first.lemma_filter_pred(keep, i);
        assert(keep(voice));
        assert forall|k: int| 0 <= k < lists.len() implies offers_name(
            #[trigger] lists[k]@,
            name,
        ) by {
            assert(offers(lists[k]@, voice));
            let j = choose|j: int| 0 <= j < lists[k]@.len() && voice.same_voice(#[trigger] lists[k]@[j]);
            assert(lists[k]@[j].spec_short_name() == name);
        }
    }
    if forall|k: int| 0 <= k < lists.len() ==> offers_name(#[trigger] lists[k]@, name) {
        assert(offers_name(lists[0]@, name));
        let i = choose|i: int| 0 <= i < first.len() && (#[trigger] first[i]).spec_short_name() == name;
        let voice = first[i];
        assert forall|k: int| 0 <= k < lists.len() implies offers(#[trigger] lists[k]@, voice) by {
            assert(offers_name(lists[k]@, name));
            let j = choose|j: int|
                0 <= j < lists[k]@.len() && (#[trigger] lists[k]@[j]).spec_short_name() == name;
            assert((lists[0]@[i] is AzureApi) == (lists[k]@[j] is AzureApi));
            assert(voice.same_voice(lists[k]@[j]));
        }
        assert(keep(voice));
        first.lemma_filter_contains(keep, i);
        let m = choose|m: int| 0 <= m < mixed.len() && mixed[m] == voice;
        assert(mixed[m].spec_short_name() == name);
    }
}

/// The common catalog takes its voices from the first catalog and keeps their order.
pub proof fn lemma_mixed_voices_from_first(lists: Seq<Vec<VoicesItem>>, i: int)
    requires
        lists.len() > 0,
        0 <= i < mixed_voices(lists).len(),
    ensures
        lists[0]@.contains(mixed_voices(lists)[i]),
        offered_by_all(lists, mixed_voices(lists)[i]),
        mixed_voices(lists).len() <= lists[0]@.len(),
{
    let keep = |voice: VoicesItem| offered_by_all(lists, voice);
    lists[0]@.lemma_filter_pred(keep, i);
    lists[0]@.lemma_filter_len(keep);
    assert(mixed_voices(lists).contains(mixed_voices(lists)[i]));
    lists[0]@.lemma_filter_contains_rev(keep, mixed_voices(lists)[i]);
}

/// The place of the last voice of this short name in the list.
pub open spec fn last_named(list: Seq<VoicesItem>, name: Seq<char>, i: int) -> bool {
    &&& 0 <= i < list.len()
    &&& list[i].spec_short_name() == name
    &&& forall|j: int| i < j < list.len() ==> (#[trigger] list[j]).spec_short_name() != name
}

/// The voices of the list that have this locale, in the order of the list.
pub open spec fn voices_of_locale(list: Seq<VoicesItem>, locale: Seq<char>) -> Seq<VoicesItem> {
    list.filter(|voice: VoicesItem| voice.spec_local() == locale)
}

/// The short names of the voices of a list, in the order of the list.
pub open spec fn short_names(list: Seq<VoicesItem>) -> Seq<Seq<char>> {
    Seq::new(list.len(), |i: int| list[i].spec_short_name())
}

/// The catalog of one backend. A voice is looked up by short name; where a
/// name stands twice the later entry counts.
#[derive(Debug)]
pub struct VoicesList {
    pub raw_data: Vec<VoicesItem>,
}

impl VoicesList {
    /// Whether the catalog offers a voice of this short name.
    pub fn contains(&self, name: &str) -> (r: bool)
        ensures
            r == offers_name(self.raw_data@, name@),
    {
        self.get(name).is_some()
    }

    /// The voice of this short name.
    pub fn get(&self, name: &str) -> (r: Option<&VoicesItem>)
        ensures
            r is Some == offers_name(self.raw_data@, name@),
            r matches Some(voice) ==> exists|i: int|
                last_named(self.raw_data@, name@, i) && *voice == self.raw_data@[i],
    {
        let mut i: usize = self.raw_data.len();
        while i > 0
            invariant
                i <= self.raw_data@.len(),
                forall|j: int|
                    i <= j < self.raw_data@.len() ==> (#[trigger] self.raw_data@[j]).spec_short_name()
                        != name@,
            decreases i,
        {
            i -= 1;
            let short_name = match &self.raw_data[i] {
                VoicesItem::AzureApi { short_name, .. } => short_name,
                VoicesItem::EdgeApi { short_name, .. } => short_name,
            };
            if str_eq(short_name.as_str(), name) {
                assert(last_named(self.raw_data@, name@, i as int));
                return Some(&self.raw_data[i]);
            }
        }
        None
    }

    /// The voices of a locale, in the order of the catalog.
    pub fn by_locale(&self, locale: &str) -> (r: Vec<&VoicesItem>)
        ensures
            r@.map_values(|voice: &VoicesItem| *voice) == voices_of_locale(
                self.raw_data@,
                locale@,
            ),
    {
        let ghost keep = |voice: VoicesItem| voice.spec_local() == locale@;
        let ghost deref = |voice: &VoicesItem| *voice;
        let mut out: Vec<&VoicesItem> = Vec::new();
        let mut i: usize = 0;
        assert(self.raw_data@.take(0) =~= Seq::<VoicesItem>::empty());
        assert(self.raw_data@.take(0).filter(keep) =~= out@.map_values(deref)) by {
            reveal(Seq::filter);
        }
        while i < self.raw_data.len()
            invariant
                i <= self.raw_data@.len(),
                keep == |voice: VoicesItem| voice.spec_local() == locale@,
                deref == |voice: &VoicesItem| *voice,
                out@.map_values(deref) == self.raw_data@.take(i as int).filter(keep),
            decreases self.raw_data@.len() - i,
        {
            let voice = &self.raw_data[i];
            let ghost before = out@;
            proof {
                let next = self.raw_data@.take(i + 1);
                assert(next.drop_last() =~= self.raw_data@.take(i as int));
                assert(next.last() == *voice);
                reveal(Seq::filter);
            }
            if str_eq(voice.get_local(), locale) {
                out.push(voice);
                assert(out@.map_values(deref) =~= before.map_values(deref).push(*voice));
            }
            i += 1;
        }
        assert(self.raw_data@.take(i as int) =~= self.raw_data@);
        out
    }

    /// The short names of the catalog, one for each entry and in its order.
    pub fn voices_name_list(&self) -> (r: Vec<String>)
        ensures
            texts(r@) == short_names(self.raw_data@),
    {
        let mut out: Vec<String> = Vec::new();
        let mut i: usize = 0;
        while i < self.raw_data.len()
            invariant
                i <= self.raw_data@.len(),
                out@.len() == i,
                forall|k: int| 0 <= k < i ==> out@[k]@ == self.raw_data@[k].spec_short_name(),
            decreases self.raw_data@.len() - i,
        {
            out.push(self.raw_data[i].get_short_name());
            i += 1;
        }
        assert(texts(out@) =~= short_names(self.raw_data@));
        out
    }
}

/// Files a list of voices as a catalog.
pub fn collating_list_of_pronouncers(list: Vec<VoicesItem>) -> (r: VoicesList)
    ensures
        r.raw_data == list,
{
    VoicesList { raw_data: list }
}

/// The catalog of a backend: the voices that were fetched from it, or
/// the built-in ones where fetching failed.
pub fn catalog_or_fallback(fetched: Option<Vec<VoicesItem>>, builtin: Vec<VoicesItem>) -> (r:
    VoicesList)
    ensures
        r.raw_data == match fetched {
            Some(list) => list,
            None => builtin,
        },
{
    match fetched {
        Some(list) => collating_list_of_pronouncers(list),
        None => collating_list_of_pronouncers(builtin),
    }
}

} // verus!
