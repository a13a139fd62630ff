use vstd::prelude::*;
use vstd::string::*;
use crate::error::LogError;
use crate::json::{
    JsonValue, distinct_names, lemma_member_order_independent, same_members, count_of, flag_of, get_count, get_flag, get_number_text, get_opt_text,
    get_opt_texts, get_text, get_texts, member, number_text_of, object_fields, opt_text_of,
    opt_texts_of, opt_view, opt_views, text_of, texts_of, views,
};
use crate::text::{ends_with, has_suffix};

verus! {

/// An entry of the observatory's narrative (shift) log.
#[derive(Debug)]
pub struct NarrativeLog {
    pub id: String,
    pub site_id: String,
    pub message_text: String,
    pub level: usize,
    pub tags: Vec<String>,
    pub urls: Vec<String>,
    /// Hours lost, as the decimal text the service sent.
    pub time_lost: String,
    pub date_begin: String,
    pub user_id: String,
    pub user_agent: String,
    pub is_human: bool,
    pub is_valid: bool,
    pub date_added: String,
    pub date_invalidated: Option<String>,
    pub parent_id: Option<String>,
    pub systems: Option<Vec<String>>,
    pub subsystems: Option<Vec<String>>,
    pub cscs: Option<Vec<String>>,
    pub date_end: String,
    pub components: Option<Vec<String>>,
    pub primary_software_components: Option<Vec<String>>,
    pub primary_hardware_components: Option<Vec<String>>,
    pub category: Option<String>,
    pub time_lost_type: Option<String>,
}

/// Whether the members of an object have the types of a narrative log entry's fields.
pub open spec fn narrative_fields_ok(f: Seq<(String, JsonValue)>) -> bool {
    &&& text_of(member(f, "id"@)) is Some
    &&& text_of(member(f, "site_id"@)) is Some
    &&& text_of(member(f, "message_text"@)) is Some
    &&& count_of(member(f, "level"@)) is Some
    &&& texts_of(member(f, "tags"@)) is Some
    &&& texts_of(member(f, "urls"@)) is Some
    &&& number_text_of(member(f, "time_lost"@)) is Some
    &&& text_of(member(f, "date_begin"@)) is Some
    &&& text_of(member(f, "user_id"@)) is Some
    &&& text_of(member(f, "user_agent"@)) is Some
    &&& flag_of(member(f, "is_human"@)) is Some
    &&& flag_of(member(f, "is_valid"@)) is Some
    &&& text_of(member(f, "date_added"@)) is Some
    &&& opt_text_of(member(f, "date_invalidated"@)) is Some
    &&& opt_text_of(member(f, "parent_id"@)) is Some
    &&& opt_texts_of(member(f, "systems"@)) is Some
    &&& opt_texts_of(member(f, "subsystems"@)) is Some
    &&& opt_texts_of(member(f, "cscs"@)) is Some
    &&& text_of(member(f, "date_end"@)) is Some
    &&& opt_texts_of(member(f, "components"@)) is Some
    &&& opt_texts_of(member(f, "primary_software_components"@)) is Some
    &&& opt_texts_of(member(f, "primary_hardware_components"@)) is Some
    &&& opt_text_of(member(f, "category"@)) is Some
    &&& opt_text_of(member(f, "time_lost_type"@)) is Some
}

/// Whether `e` holds the members of an object, each taken by its name.
pub open spec fn narrative_from(f: Seq<(String, JsonValue)>, e: NarrativeLog) -> bool {
    &&& text_of(member(f, "id"@)) == Some(e.id@)
    &&& text_of(member(f, "site_id"@)) == Some(e.site_id@)
    &&& text_of(member(f, "message_text"@)) == Some(e.message_text@)
    &&& count_of(member(f, "level"@)) == Some(e.level)
    &&& texts_of(member(f, "tags"@)) == Some(views(e.tags@))
    &&& texts_of(member(f, "urls"@)) == Some(views(e.urls@))
    &&& number_text_of(member(f, "time_lost"@)) == Some(e.time_lost@)
    &&& text_of(member(f, "date_begin"@)) == Some(e.date_begin@)
    &&& text_of(member(f, "user_id"@)) == Some(e.user_id@)
    &&& text_of(member(f, "user_agent"@)) == Some(e.user_agent@)
    &&& flag_of(member(f, "is_human"@)) == Some(e.is_human)
    &&& flag_of(member(f, "is_valid"@)) == Some(e.is_valid)
    &&& text_of(member(f, "date_added"@)) == Some(e.date_added@)
    &&& opt_text_of(member(f, "date_invalidated"@)) == Some(opt_view(e.date_invalidated))
    &&& opt_text_of(member(f, "parent_id"@)) == Some(opt_view(e.parent_id))
    &&& opt_texts_of(member(f, "systems"@)) == Some(opt_views(e.systems))
    &&& opt_texts_of(member(f, "subsystems"@)) == Some(opt_views(e.subsystems))
    &&& opt_texts_of(member(f, "cscs"@)) == Some(opt_views(e.cscs))
    &&& text_of(member(f, "date_end"@)) == Some(e.date_end@)
    &&& opt_texts_of(member(f, "components"@)) == Some(opt_views(e.components))
    &&& opt_texts_of(member(f, "primary_software_components"@)) == Some(opt_views(e.primary_software_components))
    &&& opt_texts_of(member(f, "primary_hardware_components"@)) == Some(opt_views(e.primary_hardware_components))
    &&& opt_text_of(member(f, "category"@)) == Some(opt_view(e.category))
    &&& opt_text_of(member(f, "time_lost_type"@)) == Some(opt_view(e.time_lost_type))
}


/// Whether a value is an object that reads as a narrative log entry.
pub open spec fn narrative_json_ok(v: JsonValue) -> bool {
    v is Object && narrative_fields_ok(object_fields(v))
}

/// Whether a value is an array whose every element reads as a narrative log entry.
pub open spec fn narrative_list_ok(v: JsonValue) -> bool {
    match v {
        JsonValue::Array(items) => forall|i: int|
            0 <= i < items@.len() ==> #[trigger] narrative_json_ok(items@[i]),
        _ => false,
    }
}

/// Whether a URL names an image file.
pub open spec fn is_image(url: Seq<char>) -> bool {
    ends_with(url, ".jpeg"@) || ends_with(url, ".jpg"@) || ends_with(url, ".png"@)
}

/// The image URLs among `urls`, in their order.
pub open spec fn image_urls(urls: Seq<Seq<char>>) -> Seq<Seq<char>>
    decreases urls.len(),
{
    if urls.len() == 0 {
        Seq::empty()
    } else {
        let rest = image_urls(urls.drop_last());
        if is_image(urls.last()) {
            rest.push(urls.last())
        } else {
            rest
        }
    }
}

/// Labels for display: each followed by a space.
pub open spec fn labels_text(labels: Seq<Seq<char>>) -> Seq<char>
    decreases labels.len(),
{
    if labels.len() == 0 {
        Seq::empty()
    } else {
        labels_text(labels.drop_last()) + labels.last() + " "@
    }
}

/// The labels of an entry: its components, or the single label "None".
pub open spec fn labels_of(components: Option<Seq<Seq<char>>>) -> Seq<Seq<char>> {
    match components {
        Some(c) => c,
        None => seq!["None"@],
    }
}

/// A copy of a list of strings.
fn copy_strings(v: &Vec<String>) -> (r: Vec<String>)
    ensures
        views(r@) == views(v@),
{
    let mut out: Vec<String> = Vec::new();
    let mut i: usize = 0;
    while i < v.len()
        invariant
            i <= v@.len(),
            views(out@) == views(v@).take(i as int),
        decreases v.len() - i,
    {
        let ghost before = out@;
        out.push(v[i].clone());
        assert(views(out@) =~= views(before).push(v@[i as int]@));
        assert(views(v@).take(i + 1) =~= views(v@).take(i as int).push(v@[i as int]@));
        i = i + 1;
    }
    assert(views(v@).take(v@.len() as int) =~= views(v@));
    out
}

/// Reading a narrative log entry does not depend on the order of the object's members, when
/// no two share a name.
pub proof fn lemma_narrative_order_independent(
    f: Seq<(String, JsonValue)>,
    g: Seq<(String, JsonValue)>,
    e: NarrativeLog,
)
    requires
        distinct_names(f),
        distinct_names(g),
        same_members(f, g),
    ensures
        narrative_fields_ok(f) == narrative_fields_ok(g),
        narrative_from(f, e) == narrative_from(g, e),
{
    assert forall|key: Seq<char>| member(f, key) == member(g, key) by {
        lemma_member_order_independent(f, g, key);
    }
}

impl NarrativeLog {
    /// When the entry was added.
    pub fn get_date_added(&self) -> (r: &str)
        ensures
            r@ == self.date_added@,
    {
        self.date_added.as_str()
    }

    /// The entry's components, or the single label "None" when it has none.
    pub fn get_labels(&self) -> (r: Vec<String>)
        ensures
            views(r@) == labels_of(opt_views(self.components)),
    {
        match &self.components {
            Some(c) => copy_strings(c),
            None => {
                let mut v: Vec<String> = Vec::new();
                v.push(String::from_str("None"));
                assert(views(v@) =~= seq!["None"@]);
                v
            },
        }
    }

    /// The entry's components for display, each followed by a space; empty when
    /// it has none.
    pub fn get_labels_as_str(&self) -> (r: String)
        ensures
            r@ == match self.components {
                Some(c) => labels_text(views(c@)),
                None => Seq::empty(),
            },
    {
        let mut s = String::new();
        match &self.components {
            Some(c) => {
                let mut i: usize = 0;
                while i < c.len()
                    invariant
                        i <= c@.len(),
                        s@ == labels_text(views(c@).take(i as int)),
                    decreases c.len() - i,
                {
                    let ghost before = s@;
                    s.append(c[i].as_str());
                    s.append(" ");
                    let ghost t = views(c@).take(i + 1);
                    assert(t.drop_last() =~= views(c@).take(i as int));
                    assert(t.last() == c@[i as int]@);
                    i = i + 1;
                }
                assert(views(c@).take(c@.len() as int) =~= views(c@));
            },
            None => {},
        }
        s
    }

    /// The URLs of the entry that name images (.jpeg, .jpg or .png), in order.
    pub fn get_attached_images(&self) -> (r: Vec<String>)
        ensures
            views(r@) == image_urls(views(self.urls@)),
    {
        let ghost all = views(self.urls@);
        let mut out: Vec<String> = Vec::new();
        let mut i: usize = 0;
        while i < self.urls.len()
            invariant
                i <= self.urls@.len(),
                all == views(self.urls@),
                views(out@) == image_urls(all.take(i as int)),
            decreases self.urls.len() - i,
        {
            let url = self.urls[i].as_str();
            let ghost t = all.take(i + 1);
            assert(t.drop_last() =~= all.take(i as int));
            assert(t.last() == url@);
            if has_suffix(url, ".jpeg") || has_suffix(url, ".jpg") || has_suffix(url, ".png") {
                let ghost before = out@;
                out.push(self.urls[i].clone());
                assert(views(out@) =~= views(before).push(url@));
            }
            i = i + 1;
        }
        assert(all.take(self.urls@.len() as int) =~= all);
        out
    }

    /// Reads a narrative log entry from a JSON object, each field from the
    /// member of its name, whatever the members' order.
    pub fn from_json(v: &JsonValue) -> (r: Result<NarrativeLog, LogError>)
        ensures
            r is Ok <==> narrative_json_ok(*v),
            r is Ok ==> narrative_from(object_fields(*v), r->Ok_0),
            r is Err ==> r->Err_0 is Parse,
    {
        let f = match v {
            JsonValue::Object(f) => f,
            _ => return Err(LogError::Parse),
        };
        let id = match get_text(f, "id") {
            Some(x) => x,
            None => return Err(LogError::Parse),
        };
        let site_id = match get_text(f, "site_id") {
            Some(x) => x,
            None => return Err(LogError::Parse),
        };
        let message_text = match get_text(f, "message_text") {
            Some(x) => x,
            None => return Err(LogError::Parse),
        };
        let level = match get_count(f, "level") {
            Some(x) => x,
            None => return Err(LogError::Parse),
        };
        let tags = match get_texts(f, "tags") {
            Some(x) => x,
            None => return Err(LogError::Parse),
        };
        let urls = match get_texts(f, "urls") {
            Some(x) => x,
            None => return Err(LogError::Parse),
        };
        let time_lost = match get_number_text(f, "time_lost") {
            Some(x) => x,
            None => return Err(LogError::Parse),
        };
        let date_begin = match get_text(f, "date_begin") {
            Some(x) => x,
            None => return Err(LogError::Parse),
        };
        let user_id = match get_text(f, "user_id") {
            Some(x) => x,
            None => return Err(LogError::Parse),
        };
        let user_agent = match get_text(f, "user_agent") {
            Some(x) => x,
            None => return Err(LogError::Parse),
        };
        let is_human = match get_flag(f, "is_human") {
            Some(x) => x,
            None => return Err(LogError::Parse),
        };
        let is_valid = match get_flag(f, "is_valid") {
            Some(x) => x,
            None => return Err(LogError::Parse),
        };
        let date_added = match get_text(f, "date_added") {
            Some(x) => x,
            None => return Err(LogError::Parse),
        };
        let date_invalidated = match get_opt_text(f, "date_invalidated") {
            Ok(x) => x,
            Err(_) => return Err(LogError::Parse),
        };
        let parent_id = match get_opt_text(f, "parent_id") {
            Ok(x) => x,
            Err(_) => return Err(LogError::Parse),
        };
        let systems = match get_opt_texts(f, "systems") {
            Ok(x) => x,
            Err(_) => return Err(LogError::Parse),
        };
        let subsystems = match get_opt_texts(f, "subsystems") {
            Ok(x) => x,
            Err(_) => return Err(LogError::Parse),
        };
        let cscs = match get_opt_texts(f, "cscs") {
            Ok(x) => x,
            Err(_) => return Err(LogError::Parse),
        };
        let date_end = match get_text(f, "date_end") {
            Some(x) => x,
            None => return Err(LogError::Parse),
        };
        let components = match get_opt_texts(f, "components") {
            Ok(x) => x,
            Err(_) => return Err(LogError::Parse),
        };
        let primary_software_components = match get_opt_texts(f, "primary_software_components") {
            Ok(x) => x,
            Err(_) => return Err(LogError::Parse),
        };
        let primary_hardware_components = match get_opt_texts(f, "primary_hardware_components") {
            Ok(x) => x,
            Err(_) => return Err(LogError::Parse),
        };
        let category = match get_opt_text(f, "category") {
            Ok(x) => x,
            Err(_) => return Err(LogError::Parse),
        };
        let time_lost_type = match get_opt_text(f, "time_lost_type") {
            Ok(x) => x,
            Err(_) => return Err(LogError::Parse),
        };
        Ok(NarrativeLog {
            id,
            site_id,
            message_text,
            level,
            tags,
            urls,
            time_lost,
            date_begin,
            user_id,
            user_agent,
            is_human,
            is_valid,
            date_added,
            date_invalidated,
            parent_id,
            systems,
            subsystems,
            cscs,
            date_end,
            components,
            primary_software_components,
            primary_hardware_components,
            category,
            time_lost_type,
        })

    }

    /// Reads a JSON array of narrative log entries: one per element, in order;
    /// `Parse` when any element does not read.
    pub fn list_from_json(v: &JsonValue) -> (r: Result<Vec<NarrativeLog>, LogError>)
        ensures
            r is Ok <==> narrative_list_ok(*v),
            r is Ok ==> r->Ok_0@.len() == v->Array_0@.len() && forall|i: int|
                0 <= i < r->Ok_0@.len() ==> narrative_from(
                    object_fields(v->Array_0@[i]),
                    #[trigger] r->Ok_0@[i],
                ),
            r is Err ==> r->Err_0 is Parse,
    {
        let items = match v {
            JsonValue::Array(items) => items,
            _ => return Err(LogError::Parse),
        };
        let mut out: Vec<NarrativeLog> = Vec::new();
        let mut i: usize = 0;
        while i < items.len()
            invariant
                *v == JsonValue::Array(*items),
                i <= items@.len(),
                out@.len() == i,
                forall|j: int| 0 <= j < i ==> #[trigger] narrative_json_ok(items@[j]),
                forall|j: int|
                    0 <= j < i ==> narrative_from(object_fields(items@[j]), #[trigger] out@[j]),
            decreases items.len() - i,
        {
            match NarrativeLog::from_json(&items[i]) {
                Ok(e) => out.push(e),
                Err(e) => {
                    assert(!narrative_json_ok(items@[i as int]));
                    assert(v->Array_0@[i as int] == items@[i as int]);
                    assert(!narrative_list_ok(*v));
                    return Err(e);
                },
            }
            i = i + 1;
        }
        Ok(out)
    }
}

} // verus!
