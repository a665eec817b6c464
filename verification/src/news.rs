//! News entries: slides of displayable content with optional colors, the
//! update event that patches an entry, staged builders for both, and the
//! selection of the latest entries for the feed.

use vstd::prelude::*;

use crate::content::{
    clone_opt_string, AudioContent, FileContent, ImageContent, TextContent, VideoContent,
};
use crate::message::ImageDescription;
use crate::text::str_views;

verus! {

/// The content of one news slide: exactly one media kind.
#[derive(Debug)]
pub enum NewsContent {
    Image(ImageContent),
    Text(TextContent),
    Video(VideoContent),
    Audio(AudioContent),
    File(FileContent),
}

impl Clone for NewsContent {
    fn clone(&self) -> (res: Self)
        ensures
            res == *self,
    {
        match self {
            NewsContent::Image(c) => NewsContent::Image(c.clone()),
            NewsContent::Text(c) => NewsContent::Text(c.clone()),
            NewsContent::Video(c) => NewsContent::Video(c.clone()),
            NewsContent::Audio(c) => NewsContent::Audio(c.clone()),
            NewsContent::File(c) => NewsContent::File(c.clone()),
        }
    }
}

/// The kind word of each slide content.
pub open spec fn news_type_str(c: NewsContent) -> Seq<char> {
    match c {
        NewsContent::Audio(_) => "audio"@,
        NewsContent::File(_) => "file"@,
        NewsContent::Image(_) => "image"@,
        NewsContent::Text(_) => "text"@,
        NewsContent::Video(_) => "video"@,
    }
}

impl NewsContent {
    pub fn type_str(&self) -> (r: String)
        ensures
            r@ == news_type_str(*self),
    {
        match self {
            NewsContent::Audio(_) => String::from_str("audio"),
            NewsContent::File(_) => String::from_str("file"),
            NewsContent::Image(_) => String::from_str("image"),
            NewsContent::Text(_) => String::from_str("text"),
            NewsContent::Video(_) => String::from_str("video"),
        }
    }

    pub fn audio(&self) -> (r: Option<AudioContent>)
        ensures
            (match self {
                NewsContent::Audio(c) => r == Some(*c),
                _ => r is None,
            }),
    {
        match self {
            NewsContent::Audio(c) => Some(c.clone()),
            _ => None,
        }
    }

    pub fn file(&self) -> (r: Option<FileContent>)
        ensures
            (match self {
                NewsContent::File(c) => r == Some(*c),
                _ => r is None,
            }),
    {
        match self {
            NewsContent::File(c) => Some(c.clone()),
            _ => None,
        }
    }

    pub fn image(&self) -> (r: Option<ImageContent>)
        ensures
            (match self {
                NewsContent::Image(c) => r == Some(*c),
                _ => r is None,
            }),
    {
        match self {
            NewsContent::Image(c) => Some(c.clone()),
            _ => None,
        }
    }

    pub fn text(&self) -> (r: Option<TextContent>)
        ensures
            (match self {
                NewsContent::Text(c) => r == Some(*c),
                _ => r is None,
            }),
    {
        match self {
            NewsContent::Text(c) => Some(c.clone()),
            _ => None,
        }
    }

    pub fn video(&self) -> (r: Option<VideoContent>)
        ensures
            (match self {
                NewsContent::Video(c) => r == Some(*c),
                _ => r is None,
            }),
    {
        match self {
            NewsContent::Video(c) => Some(c.clone()),
            _ => None,
        }
    }
}

/// One full-sized slide of news: its content and the items it references.
#[derive(Debug)]
pub struct NewsSlide {
    pub content: NewsContent,
    pub references: Vec<String>,
}

/// Slides that agree in content and references; two `Vec`s with equal
/// contents are not themselves equal values, so copies of slides are
/// related through this predicate.
pub open spec fn slide_like(a: NewsSlide, b: NewsSlide) -> bool {
    a.content == b.content && a.references@ == b.references@
}

/// Slide sequences that agree pointwise per `slide_like`.
pub open spec fn slides_like(a: Seq<NewsSlide>, b: Seq<NewsSlide>) -> bool {
    a.len() == b.len() && forall|k: int| 0 <= k < a.len() ==> slide_like(#[trigger] a[k], b[k])
}

fn clone_string_vec(v: &Vec<String>) -> (r: Vec<String>)
    ensures
        r@ == v@,
{
    let mut out: Vec<String> = Vec::new();
    let mut i: usize = 0;
    while i < v.len()
        invariant
            0 <= i <= v.len(),
            out@ == v@.take(i as int),
        decreases v.len() - i,
    {
        out.push(v[i].clone());
        proof {
            assert(out@ =~= v@.take(i + 1));
        }
        i = i + 1;
    }
    proof {
        assert(v@.take(v@.len() as int) =~= v@);
    }
    out
}

impl Clone for NewsSlide {
    fn clone(&self) -> (res: Self)
        ensures
            slide_like(res, *self),
    {
        NewsSlide {
            content: self.content.clone(),
            references: clone_string_vec(&self.references),
        }
    }
}

fn clone_slides(v: &Vec<NewsSlide>) -> (r: Vec<NewsSlide>)
    ensures
        slides_like(r@, v@),
{
    let mut out: Vec<NewsSlide> = Vec::new();
    let mut i: usize = 0;
    while i < v.len()
        invariant
            0 <= i <= v.len(),
            out@.len() == i,
            slides_like(out@, v@.take(i as int)),
        decreases v.len() - i,
    {
        out.push(v[i].clone());
        i = i + 1;
    }
    proof {
        assert(v@.take(v@.len() as int) =~= v@);
    }
    out
}

impl NewsSlide {
    pub fn content(&self) -> (r: &NewsContent)
        ensures
            r == &self.content,
    {
        &self.content
    }

    pub fn references(&self) -> (r: Vec<String>)
        ensures
            r@ == self.references@,
    {
        clone_string_vec(&self.references)
    }

    pub fn type_str(&self) -> (r: String)
        ensures
            r@ == news_type_str(self.content),
    {
        self.content.type_str()
    }

    /// The image description of an image slide that carries metadata.
    pub fn image_desc(&self) -> (r: Option<ImageDescription>)
        ensures
            (match self.content {
                NewsContent::Image(c) => match c.info {
                    Some(i) => r == Some(
                        ImageDescription {
                            name: c.body,
                            mimetype: i.mimetype,
                            size: i.size,
                            width: i.width,
                            height: i.height,
                        },
                    ),
                    None => r is None,
                },
                _ => r is None,
            }),
    {
        match &self.content {
            NewsContent::Image(c) => match &c.info {
                Some(i) => Some(
                    ImageDescription::new(
                        c.body.clone(),
                        clone_opt_string(&i.mimetype),
                        i.size,
                        i.width,
                        i.height,
                    ),
                ),
                None => None,
            },
            _ => None,
        }
    }

    /// The display line of a slide: media slides show their caption, text
    /// slides their formatted rendering when one exists.
    pub fn text(&self) -> (r: String)
        ensures
            (match self.content {
                NewsContent::Image(c) => r@ == c.body@,
                NewsContent::Video(c) => r@ == c.body@,
                NewsContent::Audio(c) => r@ == c.body@,
                NewsContent::File(c) => r@ == c.body@,
                NewsContent::Text(c) => match c.formatted {
                    Some(f) => r@ == f.body@,
                    None => r@ == c.body@,
                },
            }),
    {
        match &self.content {
            NewsContent::Image(c) => c.body.clone(),
            NewsContent::Video(c) => c.body.clone(),
            NewsContent::Audio(c) => c.body.clone(),
            NewsContent::File(c) => c.body.clone(),
            NewsContent::Text(c) => match &c.formatted {
                Some(f) => f.body.clone(),
                None => c.body.clone(),
            },
        }
    }
}

/// Custom foreground and background colors of a news entry.
#[derive(Clone, Copy, Debug, PartialEq, Eq, Structural)]
pub struct Colorize {
    pub color: Option<u32>,
    pub background: Option<u32>,
}

/// The payload of a news creation event: its slides and optional colors.
#[derive(Debug)]
pub struct NewsEntryEventContent {
    pub slides: Vec<NewsSlide>,
    pub colors: Option<Colorize>,
}

impl NewsEntryEventContent {
    pub fn slides(&self) -> (r: &Vec<NewsSlide>)
        ensures
            r == &self.slides,
    {
        &self.slides
    }

    pub fn colors(&self) -> (r: Option<Colorize>)
        ensures
            r == self.colors,
    {
        self.colors
    }
}

/// The payload of a news update event: the entry it patches and the fields
/// it replaces — slides wholesale, colors including clearing them.
#[derive(Debug)]
pub struct NewsEntryUpdateEventContent {
    pub news_entry_id: String,
    pub slides: Option<Vec<NewsSlide>>,
    pub colors: Option<Option<Colorize>>,
}

impl NewsEntryUpdateEventContent {
    /// Applies the update: each present field replaces the entry's field;
    /// the result says whether anything changed.
    pub fn apply(&self, task: &mut NewsEntryEventContent) -> (updated: bool)
        ensures
            (match self.slides {
                Some(s) => slides_like(final(task).slides@, s@),
                None => final(task).slides@ == old(task).slides@,
            }),
            (match self.colors {
                Some(c) => final(task).colors == c,
                None => final(task).colors == old(task).colors,
            }),
            updated == (self.slides is Some || self.colors is Some),
    {
        let mut updated = false;
        if let Some(slides) = &self.slides {
            task.slides = clone_slides(slides);
            updated = true;
        }
        if let Some(colors) = &self.colors {
            task.colors = *colors;
            updated = true;
        }
        updated
    }
}

/// A staged builder for a news entry: slides must be supplied, colors are
/// optional.
#[derive(Debug)]
pub struct NewsEntryBuilder {
    pub slides: Option<Vec<NewsSlide>>,
    pub colors: Option<Colorize>,
}

impl NewsEntryBuilder {
    pub fn new() -> (r: NewsEntryBuilder)
        ensures
            r.slides is None,
            r.colors is None,
    {
        NewsEntryBuilder { slides: None, colors: None }
    }

    pub fn slides(&mut self, slides: Vec<NewsSlide>)
        ensures
            *final(self) == (NewsEntryBuilder { slides: Some(slides), ..*old(self) }),
    {
        self.slides = Some(slides);
    }

    pub fn colors(&mut self, colors: Option<Colorize>)
        ensures
            *final(self) == (NewsEntryBuilder { colors, ..*old(self) }),
    {
        self.colors = colors;
    }

    /// Builds the payload; fails exactly when no slides were supplied.
    pub fn build(self) -> (r: Result<NewsEntryEventContent, ()>)
        ensures
            r is Ok <==> self.slides is Some,
            (match (r, self.slides) {
                (Ok(c), Some(s)) => c.slides == s && c.colors == self.colors,
                (Err(()), None) => true,
                _ => false,
            }),
    {
        match self.slides {
            Some(slides) => Ok(NewsEntryEventContent { slides, colors: self.colors }),
            None => Err(()),
        }
    }
}

/// A staged builder for a news update: the entry to patch must be named,
/// both fields are optional.
#[derive(Debug)]
pub struct NewsEntryUpdateBuilder {
    pub news_entry_id: Option<String>,
    pub slides: Option<Vec<NewsSlide>>,
    pub colors: Option<Option<Colorize>>,
}

impl NewsEntryUpdateBuilder {
    pub fn new() -> (r: NewsEntryUpdateBuilder)
        ensures
            r.news_entry_id is None,
            r.slides is None,
            r.colors is None,
    {
        NewsEntryUpdateBuilder { news_entry_id: None, slides: None, colors: None }
    }

    pub fn news_entry(&mut self, news_entry_id: String)
        ensures
            *final(self) == (NewsEntryUpdateBuilder {
                news_entry_id: Some(news_entry_id),
                ..*old(self)
            }),
    {
        self.news_entry_id = Some(news_entry_id);
    }

    pub fn slides(&mut self, slides: Vec<NewsSlide>)
        ensures
            *final(self) == (NewsEntryUpdateBuilder { slides: Some(slides), ..*old(self) }),
    {
        self.slides = Some(slides);
    }

    pub fn colors(&mut self, colors: Option<Colorize>)
        ensures
            *final(self) == (NewsEntryUpdateBuilder { colors: Some(colors), ..*old(self) }),
    {
        self.colors = Some(colors);
    }

    /// Builds the payload; fails exactly when the patched entry was not
    /// named.
    pub fn build(self) -> (r: Result<NewsEntryUpdateEventContent, ()>)
        ensures
            r is Ok <==> self.news_entry_id is Some,
            (match (r, self.news_entry_id) {
                (Ok(c), Some(id)) => c.news_entry_id == id && c.slides == self.slides && c.colors
                    == self.colors,
                (Err(()), None) => true,
                _ => false,
            }),
    {
        match self.news_entry_id {
            Some(news_entry_id) => Ok(
                NewsEntryUpdateEventContent {
                    news_entry_id,
                    slides: self.slides,
                    colors: self.colors,
                },
            ),
            None => Err(()),
        }
    }
}

/// A resolved news entry: its identity and payload.
#[derive(Debug)]
pub struct NewsEntry {
    pub event_id: String,
    pub room_id: String,
    pub content: NewsEntryEventContent,
}

impl NewsEntry {
    pub fn event_id(&self) -> (r: String)
        ensures
            r@ == self.event_id@,
    {
        self.event_id.clone()
    }

    pub fn room_id(&self) -> (r: String)
        ensures
            r@ == self.room_id@,
    {
        self.room_id.clone()
    }

    /// How many slides the entry holds, as the narrow counter the feed
    /// uses; entries beyond its range wrap.
    pub fn slides_count(&self) -> (r: u8)
        ensures
            r as nat == self.content.slides@.len() % 256,
    {
        let n = self.content.slides.len() % 256;
        n as u8
    }

    /// The slide at a position, when there is one.
    pub fn get_slide(&self, pos: u8) -> (r: Option<NewsSlide>)
        ensures
            (pos as nat) < self.content.slides@.len() ==> (match r {
                Some(s) => slide_like(s, self.content.slides@[pos as int]),
                None => false,
            }),
            (pos as nat) >= self.content.slides@.len() ==> r is None,
    {
        if (pos as usize) < self.content.slides.len() {
            Some(self.content.slides[pos as usize].clone())
        } else {
            None
        }
    }

    pub fn comments_count(&self) -> (r: u32)
        ensures
            r == 4,
    {
        4
    }

    pub fn likes_count(&self) -> (r: u32)
        ensures
            r == 19,
    {
        19
    }
}


/// Whether a room is among the known rooms.
pub open spec fn room_known(rooms: Seq<Seq<char>>, id: Seq<char>) -> bool {
    exists|i: int| 0 <= i < rooms.len() && rooms[i] == id
}

fn room_in(rooms: &Vec<String>, id: &String) -> (r: bool)
    ensures
        r == room_known(str_views(rooms@), id@),
{
    let mut i: usize = 0;
    while i < rooms.len()
        invariant
            0 <= i <= rooms.len(),
            forall|k: int| 0 <= k < i ==> str_views(rooms@)[k] != id@,
        decreases rooms.len() - i,
    {
        if rooms[i] == *id {
            proof {
                assert(str_views(rooms@)[i as int] == id@);
            }
            return true;
        }
        i = i + 1;
    }
    false
}

/// The newest-first selection of at most `count` entries whose room is
/// known, read from the back of the stored list.
pub open spec fn latest_selection(
    all: Seq<NewsEntry>,
    rooms: Seq<Seq<char>>,
    count: nat,
) -> Seq<NewsEntry>
    decreases all.len(),
{
    if all.len() == 0 || count == 0 {
        Seq::empty()
    } else {
        let last = all.last();
        if room_known(rooms, last.room_id@) {
            seq![last] + latest_selection(all.drop_last(), rooms, (count - 1) as nat)
        } else {
            latest_selection(all.drop_last(), rooms, count)
        }
    }
}

/// Picks the latest entries from a stored list (insertion order,
/// most-recent-last), skipping entries whose room is not among the known
/// rooms — an entry of a room the user has left does not surface. The
/// result is newest-first and holds at most `count` entries.
pub fn select_latest_news_in_rooms(
    all: Vec<NewsEntry>,
    known_rooms: &Vec<String>,
    count: u32,
) -> (r: Vec<NewsEntry>)
    ensures
        r@ == latest_selection(all@, str_views(known_rooms@), count as nat),
{
    let ghost initial = all@;
    let ghost rooms = str_views(known_rooms@);
    let mut all = all;
    let mut out: Vec<NewsEntry> = Vec::new();
    while out.len() < count as usize && all.len() > 0
        invariant
            rooms == str_views(known_rooms@),
            out@.len() <= count as nat,
            latest_selection(initial, rooms, count as nat) == out@ + latest_selection(
                all@,
                rooms,
                (count - out@.len()) as nat,
            ),
        decreases all@.len(),
    {
        let ghost before = all@;
        let last = all.pop();
        match last {
            Some(entry) => {
                proof {
                    assert(before.last() == entry);
                    assert(all@ =~= before.drop_last());
                }
                if room_in(known_rooms, &entry.room_id) {
                    out.push(entry);
                    proof {
                        let c = (count - (out@.len() - 1)) as nat;
                        assert(latest_selection(before, rooms, c) =~= seq![
                            before.last(),
                        ] + latest_selection(before.drop_last(), rooms, (c - 1) as nat));
                        assert(out@.drop_last() + (seq![out@.last()] + latest_selection(
                            all@,
                            rooms,
                            (count - out@.len()) as nat,
                        )) =~= out@ + latest_selection(all@, rooms, (count - out@.len()) as nat));
                    }
                } else {
                    proof {
                        let c = (count - out@.len()) as nat;
                        assert(latest_selection(before, rooms, c) == latest_selection(
                            before.drop_last(),
                            rooms,
                            c,
                        ));
                    }
                }
            },
            None => {
                proof {
                    assert(false);
                }
            },
        }
    }
    proof {
        if out@.len() == count as nat {
            assert(latest_selection(all@, rooms, 0) =~= Seq::<NewsEntry>::empty());
        } else {
            assert(all@.len() == 0);
            assert(latest_selection(all@, rooms, (count - out@.len()) as nat)
                =~= Seq::<NewsEntry>::empty());
        }
        assert(out@ + Seq::<NewsEntry>::empty() =~= out@);
    }
    out
}

/// Picks the latest entries from a room-scoped stored list (insertion
/// order, most-recent-last), where every entry's room is the caller's
/// own: the result is newest-first and holds at most `count` entries.
pub fn select_latest_news(all: Vec<NewsEntry>, count: u32) -> (r: Vec<NewsEntry>)
    ensures
        r@.len() == vstd::math::min(count as int, all@.len() as int),
        forall|i: int| 0 <= i < r@.len() ==> r@[i] == all@[all@.len() - 1 - i],
{
    let ghost initial = all@;
    let mut all = all;
    let mut out: Vec<NewsEntry> = Vec::new();
    while out.len() < count as usize && all.len() > 0
        invariant
            out@.len() <= count as nat,
            all@ == initial.take(initial.len() - out@.len()),
            out@.len() <= initial.len(),
            forall|i: int| 0 <= i < out@.len() ==> out@[i] == initial[initial.len() - 1 - i],
        decreases all@.len(),
    {
        let last = all.pop();
        match last {
            Some(entry) => {
                out.push(entry);
                proof {
                    assert(all@ =~= initial.take(initial.len() - out@.len()));
                }
            },
            None => {
                proof {
                    assert(false);
                }
            },
        }
    }
    out
}

} // verus!
