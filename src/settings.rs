use vstd::prelude::*;

verus! {

/// The user's preferences: the photo service key, the topic photos are taken
/// from, and how often the wallpaper changes by itself ("manual", "30min",
/// "1hour", "6hour" or "daily").
#[derive(Clone, Debug)]
pub struct Settings {
    pub api_key: String,
    pub topic_slug: String,
    pub update_interval: String,
}

impl Default for Settings {
    /// No key, no topic, and no automatic change.
    fn default() -> (r: Settings)
        ensures
            r.api_key@ == Seq::<char>::empty(),
            r.topic_slug@ == Seq::<char>::empty(),
            r.update_interval@ == "manual"@,
    {
        Settings {
            api_key: String::new(),
            topic_slug: String::new(),
            update_interval: String::from_str("manual"),
        }
    }
}

} // verus!
