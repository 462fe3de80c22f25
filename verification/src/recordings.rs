//! A completed recording as the API lists it.
use vstd::prelude::*;

verus! {

/// One completed recording: title, the moment it was recorded as seconds
/// since the Unix epoch, and the media identifier used to tune to it.
#[derive(Debug)]
pub struct Recording {
    title: String,
    date_recorded: i64,
    media_id: String,
}

/// The mathematical content of a [`Recording`].
pub struct RecordingView {
    pub title: Seq<char>,
    pub date_recorded: int,
    pub media_id: Seq<char>,
}

impl View for Recording {
    type V = RecordingView;

    closed spec fn view(&self) -> RecordingView {
        RecordingView {
            title: self.title@,
            date_recorded: self.date_recorded as int,
            media_id: self.media_id@,
        }
    }
}

impl Clone for Recording {
    fn clone(&self) -> (r: Self)
        ensures
            r@ == self@,
    {
        Recording {
            title: self.title.clone(),
            date_recorded: self.date_recorded,
            media_id: self.media_id.clone(),
        }
    }
}

impl Recording {
    pub fn new(title: String, date_recorded: i64, media_id: String) -> (r: Recording)
        ensures
            r@ == (RecordingView {
                title: title@,
                date_recorded: date_recorded as int,
                media_id: media_id@,
            }),
    {
        Recording { title, date_recorded, media_id }
    }

    pub fn title(&self) -> (t: &String)
        ensures
            t@ == self@.title,
    {
        &self.title
    }

    pub fn date_recorded(&self) -> (d: i64)
        ensures
            d as int == self@.date_recorded,
    {
        self.date_recorded
    }

    pub fn media_id(&self) -> (m: &String)
        ensures
            m@ == self@.media_id,
    {
        &self.media_id
    }
}

} // verus!
