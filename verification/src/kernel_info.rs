//! What the kernel says of itself in answer to a kernel-info request.

use crate::contents::{text_array, write_text_array};
use crate::json::{
    array, bool_value, boolean, field, field_views, null_value, object, quoted, text_value,
    to_bytes, write_array, write_object, Field,
};
use crate::messages::PROTOCOL_VERSION;
use crate::session::texts;
use crate::text::views;
use vstd::prelude::*;

verus! {

/// The MIME type of source files in the kernel's language.
pub const KI_LI_MIMETYPE: &'static str = "text/x-aiken";

/// A request for the kernel's description; it has no members.
#[derive(Debug, Clone, Copy, PartialEq, Eq, Structural)]
pub struct KernelInfoRequest {}

/// A link to documentation.
#[derive(Debug)]
pub struct HelpLink {
    pub text: String,
    pub url: String,
}

/// The language that the kernel runs.
#[derive(Debug)]
pub struct LanguageInfo {
    /// The language's name.
    pub name: String,
    /// The language's version.
    pub version: String,
    /// The MIME type of its source files.
    pub mimetype: String,
    /// Their extension, dot included.
    pub file_extension: String,
    /// The lexer for highlighting, where it is not the name.
    pub pygments_lexer: Option<String>,
    /// The editor mode, where it is not the name.
    pub codemirror_mode: Option<String>,
    /// The exporter for notebooks.
    pub nbconvert_exporter: String,
}

/// The kernel's description.
#[derive(Debug)]
pub struct KernelInfoReply {
    pub status: String,
    pub protocol_version: String,
    pub implementation: String,
    pub implementation_version: String,
    pub language_info: LanguageInfo,
    pub banner: String,
    pub debugger: bool,
    pub help_links: Vec<HelpLink>,
    pub supported_features: Option<Vec<String>>,
}

/// A text as a JSON string, or `null` where there is none.
pub open spec fn optional_text_json(text: Option<String>) -> Seq<char> {
    match text {
        Some(t) => quoted(t@),
        None => "null"@,
    }
}

/// A help link as a JSON object.
pub open spec fn help_link_json(link: HelpLink) -> Seq<char> {
    object(seq![("text"@, quoted(link.text@)), ("url"@, quoted(link.url@))])
}

/// The language as a JSON object.
pub open spec fn language_info_json(info: LanguageInfo) -> Seq<char> {
    object(
        seq![
            ("name"@, quoted(info.name@)),
            ("version"@, quoted(info.version@)),
            ("mimetype"@, quoted(info.mimetype@)),
            ("file_extension"@, quoted(info.file_extension@)),
            ("pygments_lexer"@, optional_text_json(info.pygments_lexer)),
            ("codemirror_mode"@, optional_text_json(info.codemirror_mode)),
            ("nbconvert_exporter"@, quoted(info.nbconvert_exporter@)),
        ],
    )
}

/// The supported features as a JSON array, or `null` where none are named.
pub open spec fn features_json(features: Option<Vec<String>>) -> Seq<char> {
    match features {
        Some(f) => text_array(texts(f@)),
        None => "null"@,
    }
}

/// The kernel's description as a JSON object, members in the order of the
/// fields.
pub open spec fn kernel_info_reply_json(reply: KernelInfoReply) -> Seq<char> {
    object(
        seq![
            ("status"@, quoted(reply.status@)),
            ("protocol_version"@, quoted(reply.protocol_version@)),
            ("implementation"@, quoted(reply.implementation@)),
            ("implementation_version"@, quoted(reply.implementation_version@)),
            ("language_info"@, language_info_json(reply.language_info)),
            ("banner"@, quoted(reply.banner@)),
            ("debugger"@, boolean(reply.debugger)),
            ("help_links"@, array(reply.help_links@.map_values(|l: HelpLink| help_link_json(l)))),
            ("supported_features"@, features_json(reply.supported_features)),
        ],
    )
}

/// The description of this kernel, as the JSON that is sent.
pub open spec fn this_kernel_json() -> Seq<char> {
    object(
        seq![
            ("status"@, quoted("ok"@)),
            ("protocol_version"@, quoted(PROTOCOL_VERSION@)),
            ("implementation"@, quoted("aiken"@)),
            ("implementation_version"@, quoted("0.0.1"@)),
            (
                "language_info"@,
                object(
                    seq![
                        ("name"@, quoted("aiken"@)),
                        ("version"@, quoted("0.0.1"@)),
                        ("mimetype"@, quoted(KI_LI_MIMETYPE@)),
                        ("file_extension"@, quoted(".ak"@)),
                        ("pygments_lexer"@, quoted("aiken"@)),
                        ("codemirror_mode"@, quoted("aiken"@)),
                        ("nbconvert_exporter"@, quoted("script"@)),
                    ],
                ),
            ),
            ("banner"@, quoted("Aiken Kernel v0.1.0\nCardano Smart Contract Language"@)),
            ("debugger"@, "false"@),
            (
                "help_links"@,
                array(
                    seq![
                        object(
                            seq![
                                ("text"@, quoted("Aiken Documentation"@)),
                                ("url"@, quoted("https://aiken-lang.org/"@)),
                            ],
                        ),
                    ],
                ),
            ),
            ("supported_features"@, "null"@),
        ],
    )
}

fn optional_text_value(text: &Option<String>) -> (out: Vec<char>)
    ensures
        out@ == optional_text_json(*text),
{
    match text {
        Some(t) => text_value(t.as_str()),
        None => null_value(),
    }
}

impl HelpLink {
    /// The link as JSON text.
    pub fn to_json_text(&self) -> (out: Vec<char>)
        ensures
            out@ == help_link_json(*self),
    {
        let mut fields: Vec<Field> = Vec::new();
        fields.push(field("text", text_value(self.text.as_str())));
        fields.push(field("url", text_value(self.url.as_str())));
        assert(field_views(fields@) =~= seq![
            ("text"@, quoted(self.text@)),
            ("url"@, quoted(self.url@)),
        ]);
        write_object(&fields)
    }
}

impl LanguageInfo {
    /// The language as JSON text.
    pub fn to_json_text(&self) -> (out: Vec<char>)
        ensures
            out@ == language_info_json(*self),
    {
        let mut fields: Vec<Field> = Vec::new();
        fields.push(field("name", text_value(self.name.as_str())));
        fields.push(field("version", text_value(self.version.as_str())));
        fields.push(field("mimetype", text_value(self.mimetype.as_str())));
        fields.push(field("file_extension", text_value(self.file_extension.as_str())));
        fields.push(field("pygments_lexer", optional_text_value(&self.pygments_lexer)));
        fields.push(field("codemirror_mode", optional_text_value(&self.codemirror_mode)));
        fields.push(field("nbconvert_exporter", text_value(self.nbconvert_exporter.as_str())));
        assert(field_views(fields@) =~= seq![
            ("name"@, quoted(self.name@)),
            ("version"@, quoted(self.version@)),
            ("mimetype"@, quoted(self.mimetype@)),
            ("file_extension"@, quoted(self.file_extension@)),
            ("pygments_lexer"@, optional_text_json(self.pygments_lexer)),
            ("codemirror_mode"@, optional_text_json(self.codemirror_mode)),
            ("nbconvert_exporter"@, quoted(self.nbconvert_exporter@)),
        ]);
        write_object(&fields)
    }
}

fn help_links_value(links: &Vec<HelpLink>) -> (out: Vec<char>)
    ensures
        out@ == array(links@.map_values(|l: HelpLink| help_link_json(l))),
{
    let ghost wanted = links@.map_values(|l: HelpLink| help_link_json(l));
    let mut parts: Vec<Vec<char>> = Vec::new();
    let mut i: usize = 0;
    assert(views(parts@) =~= wanted.subrange(0, 0));
    while i < links.len()
        invariant
            i <= links.len(),
            wanted == links@.map_values(|l: HelpLink| help_link_json(l)),
            views(parts@) == wanted.subrange(0, i as int),
        decreases links.len() - i,
    {
        let ghost before = views(parts@);
        let part = links[i].to_json_text();
        assert(part@ == wanted[i as int]);
        parts.push(part);
        assert(views(parts@) =~= before.push(part@));
        i += 1;
        assert(views(parts@) =~= wanted.subrange(0, i as int));
    }
    assert(wanted.subrange(0, links@.len() as int) =~= wanted);
    write_array(&parts)
}

impl KernelInfoReply {
    /// The description of this kernel.
    pub fn new() -> (reply: KernelInfoReply)
        ensures
            reply.status@ == "ok"@,
            reply.protocol_version@ == PROTOCOL_VERSION@,
            reply.implementation@ == "aiken"@,
            reply.implementation_version@ == "0.0.1"@,
            reply.language_info.name@ == "aiken"@,
            reply.language_info.version@ == "0.0.1"@,
            reply.language_info.mimetype@ == KI_LI_MIMETYPE@,
            reply.language_info.file_extension@ == ".ak"@,
            reply.language_info.pygments_lexer.is_some(),
            reply.language_info.pygments_lexer.unwrap()@ == "aiken"@,
            reply.language_info.codemirror_mode.is_some(),
            reply.language_info.codemirror_mode.unwrap()@ == "aiken"@,
            reply.language_info.nbconvert_exporter@ == "script"@,
            reply.banner@ == "Aiken Kernel v0.1.0\nCardano Smart Contract Language"@,
            reply.debugger == false,
            reply.help_links@.len() == 1,
            reply.help_links@[0].text@ == "Aiken Documentation"@,
            reply.help_links@[0].url@ == "https://aiken-lang.org/"@,
            reply.supported_features.is_none(),
            kernel_info_reply_json(reply) == this_kernel_json(),
    {
        let mut help_links: Vec<HelpLink> = Vec::new();
        help_links.push(
            HelpLink {
                text: "Aiken Documentation".to_owned(),
                url: "https://aiken-lang.org/".to_owned(),
            },
        );
        let reply = KernelInfoReply {
            status: "ok".to_owned(),
            protocol_version: PROTOCOL_VERSION.to_owned(),
            implementation: "aiken".to_owned(),
            implementation_version: "0.0.1".to_owned(),
            language_info: LanguageInfo {
                name: "aiken".to_owned(),
                version: "0.0.1".to_owned(),
                mimetype: KI_LI_MIMETYPE.to_owned(),
                file_extension: ".ak".to_owned(),
                pygments_lexer: Some("aiken".to_owned()),
                codemirror_mode: Some("aiken".to_owned()),
                nbconvert_exporter: "script".to_owned(),
            },
            banner: "Aiken Kernel v0.1.0\nCardano Smart Contract Language".to_owned(),
            debugger: false,
            help_links,
            supported_features: None,
        };
        proof {
            assert(reply.help_links@.map_values(|l: HelpLink| help_link_json(l)) =~= seq![
                object(
                    seq![
                        ("text"@, quoted("Aiken Documentation"@)),
                        ("url"@, quoted("https://aiken-lang.org/"@)),
                    ],
                ),
            ]);
        }
        reply
    }

    /// The description as JSON text.
    pub fn to_json_text(&self) -> (out: Vec<char>)
        ensures
            out@ == kernel_info_reply_json(*self),
    {
        let features = match &self.supported_features {
            Some(f) => write_text_array(f),
            None => null_value(),
        };
        let mut fields: Vec<Field> = Vec::new();
        fields.push(field("status", text_value(self.status.as_str())));
        fields.push(field("protocol_version", text_value(self.protocol_version.as_str())));
        fields.push(field("implementation", text_value(self.implementation.as_str())));
        fields.push(
            field("implementation_version", text_value(self.implementation_version.as_str())),
        );
        fields.push(field("language_info", self.language_info.to_json_text()));
        fields.push(field("banner", text_value(self.banner.as_str())));
        fields.push(field("debugger", bool_value(self.debugger)));
        fields.push(field("help_links", help_links_value(&self.help_links)));
        fields.push(field("supported_features", features));
        assert(field_views(fields@) =~= seq![
            ("status"@, quoted(self.status@)),
            ("protocol_version"@, quoted(self.protocol_version@)),
            ("implementation"@, quoted(self.implementation@)),
            ("implementation_version"@, quoted(self.implementation_version@)),
            ("language_info"@, language_info_json(self.language_info)),
            ("banner"@, quoted(self.banner@)),
            ("debugger"@, boolean(self.debugger)),
            (
                "help_links"@,
                array(self.help_links@.map_values(|l: HelpLink| help_link_json(l))),
            ),
            ("supported_features"@, features_json(self.supported_features)),
        ]);
        write_object(&fields)
    }

    /// The description as the bytes of a content frame.
    pub fn to_json(&self) -> (out: Vec<u8>)
        ensures
            out@ == vstd::utf8::encode_utf8(kernel_info_reply_json(*self)),
    {
        let text = self.to_json_text();
        to_bytes(text.as_slice())
    }
}

} // verus!
