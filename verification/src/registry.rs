//! The package registry: where a target's metadata lives and which version
//! label a metadata lookup resolves to.

use vstd::prelude::*;
use vstd::string::StringExecFns;
use crate::json::{
    json_texts, lemma_texts_under_twice, member, parse_document, parsed_json_texts, text_at, text_of,
};
use crate::views::option_view;

verus! {

/// Base URL of the registry's metadata endpoint; a target's identifier is
/// appended to it verbatim.
pub const REGISTRY_BASE: &'static str = "https://registry.npmjs.org/";

/// The label installed when a lookup yields no explicit tag.
pub const DEFAULT_VERSION: &'static str = "latest";

/// Name of the metadata member that holds the distribution tags.
pub const DIST_TAGS_MEMBER: &'static str = "dist-tags";

/// Name of the distribution tag that is installed.
pub const LATEST_MEMBER: &'static str = "latest";

/// What came back from the metadata endpoint for one target.
#[derive(Debug, PartialEq, Eq)]
pub enum MetadataLookup {
    /// The endpoint answered; the bytes are the response body as received.
    Response(Vec<u8>),
    /// The request did not complete: no connection, a timeout, a broken
    /// transfer.
    Unavailable,
}

/// Mathematical form of a [`MetadataLookup`].
pub ghost enum MetadataLookupView {
    Response(Seq<u8>),
    Unavailable,
}

impl View for MetadataLookup {
    type V = MetadataLookupView;

    open spec fn view(&self) -> MetadataLookupView {
        match self {
            MetadataLookup::Response(body) => MetadataLookupView::Response(body@),
            MetadataLookup::Unavailable => MetadataLookupView::Unavailable,
        }
    }
}

/// What a response body says about the `latest` distribution tag.
#[derive(Debug, PartialEq, Eq)]
pub enum LatestTag {
    /// The body is a JSON document with a string at `dist-tags.latest`.
    Published(String),
    /// The body is a JSON document without a string at that path.
    Absent,
    /// The body is not a JSON document.
    Unreadable,
}

/// Mathematical form of a [`LatestTag`].
pub ghost enum LatestTagView {
    Published(Seq<char>),
    Absent,
    Unreadable,
}

impl View for LatestTag {
    type V = LatestTagView;

    open spec fn view(&self) -> LatestTagView {
        match self {
            LatestTag::Published(tag) => LatestTagView::Published(tag@),
            LatestTag::Absent => LatestTagView::Absent,
            LatestTag::Unreadable => LatestTagView::Unreadable,
        }
    }
}

/// Where a version label came from.
#[derive(Clone, Copy, Debug, PartialEq, Eq, Structural)]
pub enum VersionSource {
    /// The registry published it as the `latest` distribution tag.
    DistTag,
    /// The registry answered without such a tag; the default label stands in.
    NoTagPublished,
    /// The lookup failed or its answer could not be read; the default label
    /// stands in.
    LookupFailed,
}

/// The version that is installed for a target.
#[derive(Debug, PartialEq, Eq)]
pub struct VersionInfo {
    pub label: String,
    pub source: VersionSource,
}

/// Mathematical form of a [`VersionInfo`].
pub ghost struct VersionInfoView {
    pub label: Seq<char>,
    pub source: VersionSource,
}

impl View for VersionInfo {
    type V = VersionInfoView;

    open spec fn view(&self) -> VersionInfoView {
        VersionInfoView { label: self.label@, source: self.source }
    }
}

/// The URL that serves the metadata of `target`.
pub open spec fn metadata_url_of(target: Seq<char>) -> Seq<char> {
    REGISTRY_BASE@ + target
}

/// What `body` says about the `latest` distribution tag.
pub open spec fn latest_tag_of(body: Seq<u8>) -> LatestTagView {
    match parsed_json_texts(body) {
        Some(texts) => match text_at(texts, DIST_TAGS_MEMBER@, LATEST_MEMBER@) {
            Some(tag) => LatestTagView::Published(tag),
            None => LatestTagView::Absent,
        },
        None => LatestTagView::Unreadable,
    }
}

/// The version that a tag reading resolves to: the published tag, else the
/// default label.
pub open spec fn version_of_tag(tag: LatestTagView) -> VersionInfoView {
    match tag {
        LatestTagView::Published(label) => VersionInfoView { label, source: VersionSource::DistTag },
        LatestTagView::Absent => VersionInfoView {
            label: DEFAULT_VERSION@,
            source: VersionSource::NoTagPublished,
        },
        LatestTagView::Unreadable => VersionInfoView {
            label: DEFAULT_VERSION@,
            source: VersionSource::LookupFailed,
        },
    }
}

/// The version that a metadata lookup resolves to.
pub open spec fn resolved_version(lookup: MetadataLookupView) -> VersionInfoView {
    match lookup {
        MetadataLookupView::Response(body) => version_of_tag(latest_tag_of(body)),
        MetadataLookupView::Unavailable => VersionInfoView {
            label: DEFAULT_VERSION@,
            source: VersionSource::LookupFailed,
        },
    }
}

/// Builds the metadata URL of `target`.
pub fn metadata_url(target: &str) -> (url: String)
    ensures
        url@ == metadata_url_of(target@),
{
    let mut url = String::from_str(REGISTRY_BASE);
    url.append(target);
    url
}

/// Looks up the `latest` distribution tag in a parsed document: the string
/// at `dist-tags.latest`, if the document holds one there.
pub fn latest_tag_in(document: &serde_json::Value) -> (tag: Option<String>)
    ensures
        option_view(tag) == text_at(json_texts(*document), DIST_TAGS_MEMBER@, LATEST_MEMBER@),
{
    let tags = member(document, DIST_TAGS_MEMBER);
    let latest = member(tags, LATEST_MEMBER);
    proof {
        lemma_texts_under_twice(json_texts(*document), DIST_TAGS_MEMBER@, LATEST_MEMBER@);
    }
    match text_of(latest) {
        Some(text) => Some(String::from_str(text)),
        None => None,
    }
}

/// Reads the `latest` distribution tag out of a response body.
pub fn read_latest_tag(body: &[u8]) -> (tag: LatestTag)
    ensures
        tag@ == latest_tag_of(body@),
{
    match parse_document(body) {
        Ok(document) => match latest_tag_in(&document) {
            Some(tag) => LatestTag::Published(tag),
            None => LatestTag::Absent,
        },
        Err(_) => LatestTag::Unreadable,
    }
}

/// Turns a tag reading into the version to install.
pub fn version_from_tag(tag: LatestTag) -> (version: VersionInfo)
    ensures
        version@ == version_of_tag(tag@),
{
    match tag {
        LatestTag::Published(label) => VersionInfo { label, source: VersionSource::DistTag },
        LatestTag::Absent => VersionInfo {
            label: String::from_str(DEFAULT_VERSION),
            source: VersionSource::NoTagPublished,
        },
        LatestTag::Unreadable => VersionInfo {
            label: String::from_str(DEFAULT_VERSION),
            source: VersionSource::LookupFailed,
        },
    }
}

/// Resolves the version to install from what the metadata lookup returned.
/// A lookup that failed, or an answer without a readable tag, resolves to the
/// default label; it never aborts the target.
pub fn resolve_version(lookup: &MetadataLookup) -> (version: VersionInfo)
    ensures
        version@ == resolved_version(lookup@),
{
    match lookup {
        MetadataLookup::Response(body) => version_from_tag(read_latest_tag(body.as_slice())),
        MetadataLookup::Unavailable => VersionInfo {
            label: String::from_str(DEFAULT_VERSION),
            source: VersionSource::LookupFailed,
        },
    }
}

/// Every lookup resolves to a version. The label is the published tag where
/// the answer holds one; in every other case (no answer, an answer that is
/// no JSON document, a document without a string at `dist-tags.latest`) it
/// is the default label `latest`.
pub proof fn lemma_resolved_label(lookup: MetadataLookupView)
    ensures
        (match lookup {
            MetadataLookupView::Response(body) => match latest_tag_of(body) {
                LatestTagView::Published(tag) => resolved_version(lookup) == VersionInfoView {
                    label: tag,
                    source: VersionSource::DistTag,
                },
                LatestTagView::Absent => resolved_version(lookup) == VersionInfoView {
                    label: DEFAULT_VERSION@,
                    source: VersionSource::NoTagPublished,
                },
                LatestTagView::Unreadable => resolved_version(lookup) == VersionInfoView {
                    label: DEFAULT_VERSION@,
                    source: VersionSource::LookupFailed,
                },
            },
            MetadataLookupView::Unavailable => resolved_version(lookup) == VersionInfoView {
                label: DEFAULT_VERSION@,
                source: VersionSource::LookupFailed,
            },
        }),
        resolved_version(lookup).source != VersionSource::DistTag ==> resolved_version(lookup).label
            == DEFAULT_VERSION@,
{
}

} // verus!
