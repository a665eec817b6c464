//! The content model shared by both projection paths: typed message payloads
//! as they arrive from the protocol, and the display-ready content
//! descriptor derived from them.

use vstd::prelude::*;

verus! {

/// A formatted rendering of a text body; `html` says whether the format is
/// HTML (the only format the descriptor keeps).
#[derive(Debug)]
pub struct FormattedBody {
    pub html: bool,
    pub body: String,
}

impl Clone for FormattedBody {
    fn clone(&self) -> (res: Self)
        ensures
            res == *self,
    {
        FormattedBody { html: self.html, body: self.body.clone() }
    }
}

/// Optional metadata carried by a media payload. An absent field means
/// "unknown", never "zero".
#[derive(Debug)]
pub struct MediaInfo {
    pub mimetype: Option<String>,
    pub size: Option<u64>,
    pub width: Option<u64>,
    pub height: Option<u64>,
    pub blurhash: Option<String>,
    pub duration: Option<u64>,
}

/// Clones an optional string; the result equals the input.
pub fn clone_opt_string(o: &Option<String>) -> (r: Option<String>)
    ensures
        r == *o,
{
    match o {
        Some(s) => Some(s.clone()),
        None => None,
    }
}

impl Clone for MediaInfo {
    fn clone(&self) -> (res: Self)
        ensures
            res == *self,
    {
        MediaInfo {
            mimetype: clone_opt_string(&self.mimetype),
            size: self.size,
            width: self.width,
            height: self.height,
            blurhash: clone_opt_string(&self.blurhash),
            duration: self.duration,
        }
    }
}

/// A text-like payload (plain text, emote, notice).
#[derive(Debug)]
pub struct TextContent {
    pub body: String,
    pub formatted: Option<FormattedBody>,
}

impl Clone for TextContent {
    fn clone(&self) -> (res: Self)
        ensures
            res == *self,
    {
        let formatted = match &self.formatted {
            Some(f) => Some(f.clone()),
            None => None,
        };
        TextContent { body: self.body.clone(), formatted }
    }
}

/// An image payload: caption, media source reference and metadata.
#[derive(Debug)]
pub struct ImageContent {
    pub body: String,
    pub source: Option<String>,
    pub info: Option<MediaInfo>,
}

/// An audio payload.
#[derive(Debug)]
pub struct AudioContent {
    pub body: String,
    pub source: Option<String>,
    pub info: Option<MediaInfo>,
}

/// A video payload.
#[derive(Debug)]
pub struct VideoContent {
    pub body: String,
    pub source: Option<String>,
    pub info: Option<MediaInfo>,
}

/// A file payload.
#[derive(Debug)]
pub struct FileContent {
    pub body: String,
    pub source: Option<String>,
    pub info: Option<MediaInfo>,
}

/// A location payload: a body and the geo URI it points at.
#[derive(Debug)]
pub struct LocationContent {
    pub body: String,
    pub geo_uri: String,
}

fn clone_opt_info(o: &Option<MediaInfo>) -> (r: Option<MediaInfo>)
    ensures
        r == *o,
{
    match o {
        Some(i) => Some(i.clone()),
        None => None,
    }
}

impl Clone for ImageContent {
    fn clone(&self) -> (res: Self)
        ensures
            res == *self,
    {
        ImageContent {
            body: self.body.clone(),
            source: clone_opt_string(&self.source),
            info: clone_opt_info(&self.info),
        }
    }
}

impl Clone for AudioContent {
    fn clone(&self) -> (res: Self)
        ensures
            res == *self,
    {
        AudioContent {
            body: self.body.clone(),
            source: clone_opt_string(&self.source),
            info: clone_opt_info(&self.info),
        }
    }
}

impl Clone for VideoContent {
    fn clone(&self) -> (res: Self)
        ensures
            res == *self,
    {
        VideoContent {
            body: self.body.clone(),
            source: clone_opt_string(&self.source),
            info: clone_opt_info(&self.info),
        }
    }
}

impl Clone for FileContent {
    fn clone(&self) -> (res: Self)
        ensures
            res == *self,
    {
        FileContent {
            body: self.body.clone(),
            source: clone_opt_string(&self.source),
            info: clone_opt_info(&self.info),
        }
    }
}

impl Clone for LocationContent {
    fn clone(&self) -> (res: Self)
        ensures
            res == *self,
    {
        LocationContent { body: self.body.clone(), geo_uri: self.geo_uri.clone() }
    }
}

/// A typed message payload, as the protocol delivers it. `Other` carries
/// the raw message-type string of a kind this library does not know.
#[derive(Debug)]
pub enum MsgPayload {
    Text(TextContent),
    Emote(TextContent),
    Notice(TextContent),
    ServerNotice(TextContent),
    Image(ImageContent),
    Audio(AudioContent),
    Video(VideoContent),
    File(FileContent),
    Location(LocationContent),
    Other { msgtype: String, body: String },
}

impl Clone for MsgPayload {
    fn clone(&self) -> (res: Self)
        ensures
            res == *self,
    {
        match self {
            MsgPayload::Text(c) => MsgPayload::Text(c.clone()),
            MsgPayload::Emote(c) => MsgPayload::Emote(c.clone()),
            MsgPayload::Notice(c) => MsgPayload::Notice(c.clone()),
            MsgPayload::ServerNotice(c) => MsgPayload::ServerNotice(c.clone()),
            MsgPayload::Image(c) => MsgPayload::Image(c.clone()),
            MsgPayload::Audio(c) => MsgPayload::Audio(c.clone()),
            MsgPayload::Video(c) => MsgPayload::Video(c.clone()),
            MsgPayload::File(c) => MsgPayload::File(c.clone()),
            MsgPayload::Location(c) => MsgPayload::Location(c.clone()),
            MsgPayload::Other { msgtype, body } => MsgPayload::Other {
                msgtype: msgtype.clone(),
                body: body.clone(),
            },
        }
    }
}

impl MsgPayload {
    /// The protocol message-type string of this payload.
    pub open spec fn msgtype_spec(&self) -> Seq<char> {
        match self {
            MsgPayload::Text(_) => "m.text"@,
            MsgPayload::Emote(_) => "m.emote"@,
            MsgPayload::Notice(_) => "m.notice"@,
            MsgPayload::ServerNotice(_) => "m.server_notice"@,
            MsgPayload::Image(_) => "m.image"@,
            MsgPayload::Audio(_) => "m.audio"@,
            MsgPayload::Video(_) => "m.video"@,
            MsgPayload::File(_) => "m.file"@,
            MsgPayload::Location(_) => "m.location"@,
            MsgPayload::Other { msgtype, .. } => msgtype@,
        }
    }

    pub fn msgtype(&self) -> (r: String)
        ensures
            r@ == self.msgtype_spec(),
    {
        match self {
            MsgPayload::Text(_) => String::from_str("m.text"),
            MsgPayload::Emote(_) => String::from_str("m.emote"),
            MsgPayload::Notice(_) => String::from_str("m.notice"),
            MsgPayload::ServerNotice(_) => String::from_str("m.server_notice"),
            MsgPayload::Image(_) => String::from_str("m.image"),
            MsgPayload::Audio(_) => String::from_str("m.audio"),
            MsgPayload::Video(_) => String::from_str("m.video"),
            MsgPayload::File(_) => String::from_str("m.file"),
            MsgPayload::Location(_) => String::from_str("m.location"),
            MsgPayload::Other { msgtype, .. } => msgtype.clone(),
        }
    }

    /// The plain body carried by the payload.
    pub open spec fn body_spec(&self) -> Seq<char> {
        match self {
            MsgPayload::Text(c) => c.body@,
            MsgPayload::Emote(c) => c.body@,
            MsgPayload::Notice(c) => c.body@,
            MsgPayload::ServerNotice(c) => c.body@,
            MsgPayload::Image(c) => c.body@,
            MsgPayload::Audio(c) => c.body@,
            MsgPayload::Video(c) => c.body@,
            MsgPayload::File(c) => c.body@,
            MsgPayload::Location(c) => c.body@,
            MsgPayload::Other { body, .. } => body@,
        }
    }
}

/// A display-ready description of one unit of content: exactly one variant,
/// absent optional fields mean "unknown".
#[derive(Debug)]
pub enum ContentDesc {
    Text { body: String, formatted_body: Option<String> },
    Image {
        name: String,
        source: Option<String>,
        mimetype: Option<String>,
        size: Option<u64>,
        width: Option<u64>,
        height: Option<u64>,
        blurhash: Option<String>,
    },
    Audio {
        name: String,
        source: Option<String>,
        mimetype: Option<String>,
        size: Option<u64>,
        duration: Option<u64>,
    },
    Video {
        name: String,
        source: Option<String>,
        mimetype: Option<String>,
        size: Option<u64>,
        width: Option<u64>,
        height: Option<u64>,
        blurhash: Option<String>,
    },
    File { name: String, source: Option<String>, mimetype: Option<String>, size: Option<u64> },
    Location { body: String, geo_uri: Option<String> },
}

impl Clone for ContentDesc {
    fn clone(&self) -> (res: Self)
        ensures
            res == *self,
    {
        match self {
            ContentDesc::Text { body, formatted_body } => ContentDesc::Text {
                body: body.clone(),
                formatted_body: clone_opt_string(formatted_body),
            },
            ContentDesc::Image { name, source, mimetype, size, width, height, blurhash } => {
                ContentDesc::Image {
                    name: name.clone(),
                    source: clone_opt_string(source),
                    mimetype: clone_opt_string(mimetype),
                    size: *size,
                    width: *width,
                    height: *height,
                    blurhash: clone_opt_string(blurhash),
                }
            },
            ContentDesc::Audio { name, source, mimetype, size, duration } => ContentDesc::Audio {
                name: name.clone(),
                source: clone_opt_string(source),
                mimetype: clone_opt_string(mimetype),
                size: *size,
                duration: *duration,
            },
            ContentDesc::Video { name, source, mimetype, size, width, height, blurhash } => {
                ContentDesc::Video {
                    name: name.clone(),
                    source: clone_opt_string(source),
                    mimetype: clone_opt_string(mimetype),
                    size: *size,
                    width: *width,
                    height: *height,
                    blurhash: clone_opt_string(blurhash),
                }
            },
            ContentDesc::File { name, source, mimetype, size } => ContentDesc::File {
                name: name.clone(),
                source: clone_opt_string(source),
                mimetype: clone_opt_string(mimetype),
                size: *size,
            },
            ContentDesc::Location { body, geo_uri } => ContentDesc::Location {
                body: body.clone(),
                geo_uri: clone_opt_string(geo_uri),
            },
        }
    }
}

/// The formatted body a text descriptor keeps: the formatted rendering only
/// when it is HTML.
pub open spec fn kept_formatted(f: Option<FormattedBody>) -> Option<String> {
    match f {
        Some(fb) => if fb.html {
            Some(fb.body)
        } else {
            None
        },
        None => None,
    }
}

/// The structured descriptor that can be built from a payload, if any: text
/// kinds always yield one, media kinds only when their metadata is present,
/// notices and unknown kinds never do.
pub open spec fn descriptor_of(p: MsgPayload) -> Option<ContentDesc> {
    match p {
        MsgPayload::Text(c) => Some(
            ContentDesc::Text { body: c.body, formatted_body: kept_formatted(c.formatted) },
        ),
        MsgPayload::Emote(c) => Some(
            ContentDesc::Text { body: c.body, formatted_body: kept_formatted(c.formatted) },
        ),
        MsgPayload::Notice(_) => None,
        MsgPayload::ServerNotice(_) => None,
        MsgPayload::Image(c) => match c.info {
            Some(i) => Some(
                ContentDesc::Image {
                    name: c.body,
                    source: c.source,
                    mimetype: i.mimetype,
                    size: i.size,
                    width: i.width,
                    height: i.height,
                    blurhash: i.blurhash,
                },
            ),
            None => None,
        },
        MsgPayload::Audio(c) => match c.info {
            Some(i) => Some(
                ContentDesc::Audio {
                    name: c.body,
                    source: c.source,
                    mimetype: i.mimetype,
                    size: i.size,
                    duration: i.duration,
                },
            ),
            None => None,
        },
        MsgPayload::Video(c) => match c.info {
            Some(i) => Some(
                ContentDesc::Video {
                    name: c.body,
                    source: c.source,
                    mimetype: i.mimetype,
                    size: i.size,
                    width: i.width,
                    height: i.height,
                    blurhash: i.blurhash,
                },
            ),
            None => None,
        },
        MsgPayload::File(c) => match c.info {
            Some(i) => Some(
                ContentDesc::File {
                    name: c.body,
                    source: c.source,
                    mimetype: i.mimetype,
                    size: i.size,
                },
            ),
            None => None,
        },
        MsgPayload::Location(c) => Some(
            ContentDesc::Location { body: c.body, geo_uri: Some(c.geo_uri) },
        ),
        MsgPayload::Other { .. } => None,
    }
}

/// The short fallback line for a payload whose structured descriptor could
/// not be built; `unknown` is the line used for unrecognized kinds.
pub open spec fn fallback_of(p: MsgPayload, unknown: Seq<char>) -> Seq<char> {
    match p {
        MsgPayload::Text(c) => c.body@,
        MsgPayload::Emote(c) => c.body@,
        MsgPayload::Notice(c) => c.body@,
        MsgPayload::ServerNotice(c) => c.body@,
        MsgPayload::Image(_) => "sent an image."@,
        MsgPayload::Audio(_) => "sent an audio."@,
        MsgPayload::Video(_) => "sent a video."@,
        MsgPayload::File(_) => "sent a file."@,
        MsgPayload::Location(c) => c.body@,
        MsgPayload::Other { .. } => unknown,
    }
}

/// Holds when `d` is a plain text descriptor carrying exactly `line`.
pub open spec fn is_fallback_text_desc(d: Option<ContentDesc>, line: Seq<char>) -> bool {
    match d {
        Some(ContentDesc::Text { body, formatted_body }) => body@ == line
            && formatted_body is None,
        _ => false,
    }
}

/// The descriptor a projected message must carry: the structured descriptor
/// when one can be built, else a plain text descriptor holding the fallback
/// line (`unknown` for unrecognized kinds).
pub open spec fn msg_desc_ok(d: Option<ContentDesc>, p: MsgPayload, unknown: Seq<char>) -> bool {
    match descriptor_of(p) {
        Some(sd) => d == Some(sd),
        None => is_fallback_text_desc(d, fallback_of(p, unknown)),
    }
}

impl ContentDesc {
    /// A plain text descriptor.
    pub fn from_text(body: String) -> (r: ContentDesc)
        ensures
            r == (ContentDesc::Text { body, formatted_body: None::<String> }),
    {
        ContentDesc::Text { body, formatted_body: None }
    }

    /// An image descriptor carrying only a name and a source reference.
    pub fn from_image(name: String, source: String) -> (r: ContentDesc)
        ensures
            r == (ContentDesc::Image {
                name,
                source: Some(source),
                mimetype: None::<String>,
                size: None::<u64>,
                width: None::<u64>,
                height: None::<u64>,
                blurhash: None::<String>,
            }),
    {
        ContentDesc::Image {
            name,
            source: Some(source),
            mimetype: None,
            size: None,
            width: None,
            height: None,
            blurhash: None,
        }
    }
}

/// Builds the descriptor a projected message carries; `unknown` is the
/// fallback line for unrecognized kinds.
pub fn build_msg_desc(p: &MsgPayload, unknown: &str) -> (r: ContentDesc)
    ensures
        msg_desc_ok(Some(r), *p, unknown@),
{
    match p {
        MsgPayload::Text(c) => {
            let formatted_body = match &c.formatted {
                Some(f) => if f.html {
                    Some(f.body.clone())
                } else {
                    None
                },
                None => None,
            };
            ContentDesc::Text { body: c.body.clone(), formatted_body }
        },
        MsgPayload::Emote(c) => {
            let formatted_body = match &c.formatted {
                Some(f) => if f.html {
                    Some(f.body.clone())
                } else {
                    None
                },
                None => None,
            };
            ContentDesc::Text { body: c.body.clone(), formatted_body }
        },
        MsgPayload::Notice(c) => ContentDesc::Text {
            body: c.body.clone(),
            formatted_body: None,
        },
        MsgPayload::ServerNotice(c) => ContentDesc::Text {
            body: c.body.clone(),
            formatted_body: None,
        },
        MsgPayload::Image(c) => match &c.info {
            Some(i) => ContentDesc::Image {
                name: c.body.clone(),
                source: clone_opt_string(&c.source),
                mimetype: clone_opt_string(&i.mimetype),
                size: i.size,
                width: i.width,
                height: i.height,
                blurhash: clone_opt_string(&i.blurhash),
            },
            None => ContentDesc::from_text(String::from_str("sent an image.")),
        },
        MsgPayload::Audio(c) => match &c.info {
            Some(i) => ContentDesc::Audio {
                name: c.body.clone(),
                source: clone_opt_string(&c.source),
                mimetype: clone_opt_string(&i.mimetype),
                size: i.size,
                duration: i.duration,
            },
            None => ContentDesc::from_text(String::from_str("sent an audio.")),
        },
        MsgPayload::Video(c) => match &c.info {
            Some(i) => ContentDesc::Video {
                name: c.body.clone(),
                source: clone_opt_string(&c.source),
                mimetype: clone_opt_string(&i.mimetype),
                size: i.size,
                width: i.width,
                height: i.height,
                blurhash: clone_opt_string(&i.blurhash),
            },
            None => ContentDesc::from_text(String::from_str("sent a video.")),
        },
        MsgPayload::File(c) => match &c.info {
            Some(i) => ContentDesc::File {
                name: c.body.clone(),
                source: clone_opt_string(&c.source),
                mimetype: clone_opt_string(&i.mimetype),
                size: i.size,
            },
            None => ContentDesc::from_text(String::from_str("sent a file.")),
        },
        MsgPayload::Location(c) => ContentDesc::Location {
            body: c.body.clone(),
            geo_uri: Some(c.geo_uri.clone()),
        },
        MsgPayload::Other { .. } => ContentDesc::from_text(String::from_str(unknown)),
    }
}

/// Holds when the descriptor's variant agrees with the payload's kind.
pub open spec fn variant_matches(p: MsgPayload, d: ContentDesc) -> bool {
    match p {
        MsgPayload::Text(_) => d is Text,
        MsgPayload::Emote(_) => d is Text,
        MsgPayload::Notice(_) => d is Text,
        MsgPayload::ServerNotice(_) => d is Text,
        MsgPayload::Image(_) => d is Image,
        MsgPayload::Audio(_) => d is Audio,
        MsgPayload::Video(_) => d is Video,
        MsgPayload::File(_) => d is File,
        MsgPayload::Location(_) => d is Location,
        MsgPayload::Other { .. } => d is Text,
    }
}

/// Law: a descriptor accepted by `msg_desc_ok` is the structured descriptor
/// exactly when one could be built from the payload — its variant then
/// matches the payload kind — and is the plain fallback line otherwise.
pub proof fn lemma_projected_descriptor(p: MsgPayload, d: Option<ContentDesc>, unknown: Seq<char>)
    requires
        msg_desc_ok(d, p, unknown),
    ensures
        descriptor_of(p) is Some ==> d == descriptor_of(p) && (match d {
            Some(desc) => variant_matches(p, desc),
            None => false,
        }),
        descriptor_of(p) is None ==> is_fallback_text_desc(d, fallback_of(p, unknown)),
{
}

} // verus!
