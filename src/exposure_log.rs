use vstd::prelude::*;
use vstd::string::*;
use crate::error::LogError;
use crate::json::{
    JsonValue, distinct_names, lemma_member_order_independent, same_members, count_of, flag_of, get_count, get_flag, get_opt_text, get_text, get_texts, member,
    object_fields, opt_text_of, opt_view, text_of, texts_of, views,
};
use crate::text::{append_decimal, append_padded_decimal, decimal, padded_decimal};

verus! {

/// An annotation of one exposure, as the exposure log service returns it.
#[derive(Debug)]
pub struct ExposureLog {
    pub id: String,
    pub site_id: String,
    pub obs_id: String,
    pub instrument: String,
    /// The observing night, as the number YYYYMMDD.
    pub day_obs: usize,
    pub seq_num: usize,
    pub message_text: String,
    pub level: usize,
    pub tags: Vec<String>,
    pub urls: Vec<String>,
    pub user_id: String,
    pub user_agent: String,
    pub is_human: bool,
    pub is_valid: bool,
    pub exposure_flag: String,
    pub date_added: Option<String>,
    pub date_invalidated: Option<String>,
    pub parent_id: Option<String>,
}

/// Whether the members of an object have the types of an exposure annotation's fields.
pub open spec fn exposure_fields_ok(f: Seq<(String, JsonValue)>) -> bool {
    &&& text_of(member(f, "id"@)) is Some
    &&& text_of(member(f, "site_id"@)) is Some
    &&& text_of(member(f, "obs_id"@)) is Some
    &&& text_of(member(f, "instrument"@)) is Some
    &&& count_of(member(f, "day_obs"@)) is Some
    &&& count_of(member(f, "seq_num"@)) is Some
    &&& text_of(member(f, "message_text"@)) is Some
    &&& count_of(member(f, "level"@)) is Some
    &&& texts_of(member(f, "tags"@)) is Some
    &&& texts_of(member(f, "urls"@)) is Some
    &&& text_of(member(f, "user_id"@)) is Some
    &&& text_of(member(f, "user_agent"@)) is Some
    &&& flag_of(member(f, "is_human"@)) is Some
    &&& flag_of(member(f, "is_valid"@)) is Some
    &&& text_of(member(f, "exposure_flag"@)) is Some
    &&& opt_text_of(member(f, "date_added"@)) is Some
    &&& opt_text_of(member(f, "date_invalidated"@)) is Some
    &&& opt_text_of(member(f, "parent_id"@)) is Some
}

/// Whether `e` holds the members of an object, each taken by its name.
pub open spec fn exposure_from(f: Seq<(String, JsonValue)>, e: ExposureLog) -> bool {
    &&& text_of(member(f, "id"@)) == Some(e.id@)
    &&& text_of(member(f, "site_id"@)) == Some(e.site_id@)
    &&& text_of(member(f, "obs_id"@)) == Some(e.obs_id@)
    &&& text_of(member(f, "instrument"@)) == Some(e.instrument@)
    &&& count_of(member(f, "day_obs"@)) == Some(e.day_obs)
    &&& count_of(member(f, "seq_num"@)) == Some(e.seq_num)
    &&& text_of(member(f, "message_text"@)) == Some(e.message_text@)
    &&& count_of(member(f, "level"@)) == Some(e.level)
    &&& texts_of(member(f, "tags"@)) == Some(views(e.tags@))
    &&& texts_of(member(f, "urls"@)) == Some(views(e.urls@))
    &&& text_of(member(f, "user_id"@)) == Some(e.user_id@)
    &&& text_of(member(f, "user_agent"@)) == Some(e.user_agent@)
    &&& flag_of(member(f, "is_human"@)) == Some(e.is_human)
    &&& flag_of(member(f, "is_valid"@)) == Some(e.is_valid)
    &&& text_of(member(f, "exposure_flag"@)) == Some(e.exposure_flag@)
    &&& opt_text_of(member(f, "date_added"@)) == Some(opt_view(e.date_added))
    &&& opt_text_of(member(f, "date_invalidated"@)) == Some(opt_view(e.date_invalidated))
    &&& opt_text_of(member(f, "parent_id"@)) == Some(opt_view(e.parent_id))
}


/// Whether a value is an object that reads as an exposure annotation.
pub open spec fn exposure_json_ok(v: JsonValue) -> bool {
    v is Object && exposure_fields_ok(object_fields(v))
}

/// Whether a value is an array whose every element reads as an exposure annotation.
pub open spec fn exposure_list_ok(v: JsonValue) -> bool {
    match v {
        JsonValue::Array(items) => forall|i: int|
            0 <= i < items@.len() ==> #[trigger] exposure_json_ok(items@[i]),
        _ => false,
    }
}

/// The monitor image of an exposure: the night `day_obs` (YYYYMMDD) split into
/// year, month and day, and the sequence number.
pub open spec fn image_url(day_obs: nat, seq_num: nat) -> Seq<char> {
    "https://storage.googleapis.com/rubintv_data/auxtel_monitor/auxtel-monitor_dayObs_"@
        + padded_decimal(day_obs / 10000, 4) + "-"@ + padded_decimal((day_obs % 10000) / 100, 2)
        + "-"@ + padded_decimal(day_obs % 100, 2) + "_seqNum_"@ + decimal(seq_num) + ".png"@
}

/// Reading an exposure annotation does not depend on the order of the object's members, when
/// no two share a name.
pub proof fn lemma_exposure_order_independent(
    f: Seq<(String, JsonValue)>,
    g: Seq<(String, JsonValue)>,
    e: ExposureLog,
)
    requires
        distinct_names(f),
        distinct_names(g),
        same_members(f, g),
    ensures
        exposure_fields_ok(f) == exposure_fields_ok(g),
        exposure_from(f, e) == exposure_from(g, e),
{
    assert forall|key: Seq<char>| member(f, key) == member(g, key) by {
        lemma_member_order_independent(f, g, key);
    }
}

impl ExposureLog {
    /// When the annotation was added, if the service recorded it.
    pub fn get_date_added(&self) -> (r: &Option<String>)
        ensures
            *r == self.date_added,
    {
        &self.date_added
    }

    /// The label shown for the annotation: its instrument.
    pub fn get_labels_as_str(&self) -> (r: String)
        ensures
            r@ == self.instrument@,
    {
        self.instrument.clone()
    }

    /// The monitor image of the exposure.
    pub fn get_attached_images(&self) -> (r: Vec<String>)
        ensures
            r@.len() == 1,
            r@[0]@ == image_url(self.day_obs as nat, self.seq_num as nat),
    {
        let day_obs = self.day_obs as u64;
        let mut url = String::from_str(
            "https://storage.googleapis.com/rubintv_data/auxtel_monitor/auxtel-monitor_dayObs_",
        );
        append_padded_decimal(&mut url, day_obs / 10000, 4);
        url.append("-");
        append_padded_decimal(&mut url, (day_obs % 10000) / 100, 2);
        url.append("-");
        append_padded_decimal(&mut url, day_obs % 100, 2);
        url.append("_seqNum_");
        append_decimal(&mut url, self.seq_num as u64);
        url.append(".png");
        let mut images: Vec<String> = Vec::new();
        images.push(url);
        images
    }

    /// Reads an exposure annotation from a JSON object, each field from the
    /// member of its name, whatever the members' order.
    pub fn from_json(v: &JsonValue) -> (r: Result<ExposureLog, LogError>)
        ensures
            r is Ok <==> exposure_json_ok(*v),
            r is Ok ==> exposure_from(object_fields(*v), r->Ok_0),
            r is Err ==> r->Err_0 is Parse,
    {
        let f = match v {
            JsonValue::Object(f) => f,
            _ => return Err(LogError::Parse),
        };
        let id = match get_text(f, "id") {
            Some(x) => x,
            None => return Err(LogError::Parse),
        };
        let site_id = match get_text(f, "site_id") {
            Some(x) => x,
            None => return Err(LogError::Parse),
        };
        let obs_id = match get_text(f, "obs_id") {
            Some(x) => x,
            None => return Err(LogError::Parse),
        };
        let instrument = match get_text(f, "instrument") {
            Some(x) => x,
            None => return Err(LogError::Parse),
        };
        let day_obs = match get_count(f, "day_obs") {
            Some(x) => x,
            None => return Err(LogError::Parse),
        };
        let seq_num = match get_count(f, "seq_num") {
            Some(x) => x,
            None => return Err(LogError::Parse),
        };
        let message_text = match get_text(f, "message_text") {
            Some(x) => x,
            None => return Err(LogError::Parse),
        };
        let level = match get_count(f, "level") {
            Some(x) => x,
            None => return Err(LogError::Parse),
        };
        let tags = match get_texts(f, "tags") {
            Some(x) => x,
            None => return Err(LogError::Parse),
        };
        let urls = match get_texts(f, "urls") {
            Some(x) => x,
            None => return Err(LogError::Parse),
        };
        let user_id = match get_text(f, "user_id") {
            Some(x) => x,
            None => return Err(LogError::Parse),
        };
        let user_agent = match get_text(f, "user_agent") {
            Some(x) => x,
            None => return Err(LogError::Parse),
        };
        let is_human = match get_flag(f, "is_human") {
            Some(x) => x,
            None => return Err(LogError::Parse),
        };
        let is_valid = match get_flag(f, "is_valid") {
            Some(x) => x,
            None => return Err(LogError::Parse),
        };
        let exposure_flag = match get_text(f, "exposure_flag") {
            Some(x) => x,
            None => return Err(LogError::Parse),
        };
        let date_added = match get_opt_text(f, "date_added") {
            Ok(x) => x,
            Err(_) => return Err(LogError::Parse),
        };
        let date_invalidated = match get_opt_text(f, "date_invalidated") {
            Ok(x) => x,
            Err(_) => return Err(LogError::Parse),
        };
        let parent_id = match get_opt_text(f, "parent_id") {
            Ok(x) => x,
            Err(_) => return Err(LogError::Parse),
        };
        Ok(ExposureLog {
            id,
            site_id,
            obs_id,
            instrument,
            day_obs,
            seq_num,
            message_text,
            level,
            tags,
            urls,
            user_id,
            user_agent,
            is_human,
            is_valid,
            exposure_flag,
            date_added,
            date_invalidated,
            parent_id,
        })

    }

    /// Reads a JSON array of exposure annotations: one per element, in order;
    /// `Parse` when any element does not read.
    pub fn list_from_json(v: &JsonValue) -> (r: Result<Vec<ExposureLog>, LogError>)
        ensures
            r is Ok <==> exposure_list_ok(*v),
            r is Ok ==> r->Ok_0@.len() == v->Array_0@.len() && forall|i: int|
                0 <= i < r->Ok_0@.len() ==> exposure_from(
                    object_fields(v->Array_0@[i]),
                    #[trigger] r->Ok_0@[i],
                ),
            r is Err ==> r->Err_0 is Parse,
    {
        let items = match v {
            JsonValue::Array(items) => items,
            _ => return Err(LogError::Parse),
        };
        let mut out: Vec<ExposureLog> = Vec::new();
        let mut i: usize = 0;
        while i < items.len()
            invariant
                *v == JsonValue::Array(*items),
                i <= items@.len(),
                out@.len() == i,
                forall|j: int| 0 <= j < i ==> #[trigger] exposure_json_ok(items@[j]),
                forall|j: int|
                    0 <= j < i ==> exposure_from(object_fields(items@[j]), #[trigger] out@[j]),
            decreases items.len() - i,
        {
            match ExposureLog::from_json(&items[i]) {
                Ok(e) => out.push(e),
                Err(e) => {
                    assert(!exposure_json_ok(items@[i as int]));
                    assert(v->Array_0@[i as int] == items@[i as int]);
                    assert(!exposure_list_ok(*v));
                    return Err(e);
                },
            }
            i = i + 1;
        }
        Ok(out)
    }
}

} // verus!
