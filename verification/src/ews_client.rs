//! The calendar client: its settings, the requests it sends, and the events
//! it reads out of the answers.
use crate::clock::{format_utc, utc_seconds, utc_text};
use crate::text::{
    after_last, between, chars_of, contains_text, extract, final_segment, find, find_from,
    lemma_find_from_is_least, lemma_find_from_skip, slice_of, string_of,
};
use vstd::prelude::*;
use vstd::string::*;

verus! {

/// Someone invited to an event.
#[derive(Debug, Clone, PartialEq, Eq)]
pub struct Attendee {
    pub email: String,
    pub name: Option<String>,
    pub response: Option<String>,
    pub optional: bool,
}

/// One calendar event.
#[derive(Debug, Clone, PartialEq, Eq)]
pub struct CalendarEvent {
    pub id: String,
    pub subject: String,
    pub body: Option<String>,
    pub start: String,
    pub end: String,
    pub location: Option<String>,
    pub organizer: Option<String>,
    pub attendees: Vec<Attendee>,
    pub is_recurring: bool,
    pub is_cancelled: bool,
}

/// What a `CalendarEvent` holds, as sequences of characters.
pub struct EventView {
    pub id: Seq<char>,
    pub subject: Seq<char>,
    pub body: Option<Seq<char>>,
    pub start: Seq<char>,
    pub end: Seq<char>,
    pub location: Option<Seq<char>>,
    pub organizer: Option<Seq<char>>,
    pub attendees: Seq<Attendee>,
    pub is_recurring: bool,
    pub is_cancelled: bool,
}

impl View for CalendarEvent {
    type V = EventView;

    open spec fn view(&self) -> EventView {
        EventView {
            id: self.id@,
            subject: self.subject@,
            body: crate::ad_client::text_of(self.body),
            start: self.start@,
            end: self.end@,
            location: crate::ad_client::text_of(self.location),
            organizer: crate::ad_client::text_of(self.organizer),
            attendees: self.attendees@,
            is_recurring: self.is_recurring,
            is_cancelled: self.is_cancelled,
        }
    }
}

/// The views of a list of events, in order.
pub open spec fn event_views(events: Seq<CalendarEvent>) -> Seq<EventView> {
    Seq::new(events.len(), |i: int| events[i]@)
}

/// The request that asks the calendar service for its calendar folder.
pub const PROBE_ENVELOPE: &'static str = r#"<?xml version="1.0" encoding="utf-8"?>
<soap:Envelope xmlns:soap="http://schemas.xmlsoap.org/soap/envelope/"
               xmlns:t="http://schemas.microsoft.com/exchange/services/2006/types"
               xmlns:m="http://schemas.microsoft.com/exchange/services/2006/messages">
  <soap:Header>
    <t:RequestServerVersion Version="Exchange2013"/>
  </soap:Header>
  <soap:Body>
    <m:GetFolder>
      <m:FolderShape>
        <t:BaseShape>IdOnly</t:BaseShape>
      </m:FolderShape>
      <m:FolderIds>
        <t:DistinguishedFolderId Id="calendar"/>
      </m:FolderIds>
    </m:GetFolder>
  </soap:Body>
</soap:Envelope>"#;

/// A calendar request up to the mailbox that it is made for.
pub const REQUEST_HEAD: &'static str = r#"<?xml version="1.0" encoding="utf-8"?>
<soap:Envelope xmlns:soap="http://schemas.xmlsoap.org/soap/envelope/"
               xmlns:t="http://schemas.microsoft.com/exchange/services/2006/types"
               xmlns:m="http://schemas.microsoft.com/exchange/services/2006/messages">
  <soap:Header>
    <t:RequestServerVersion Version="Exchange2013"/>
    <t:ExchangeImpersonation>
      <t:ConnectingSID>
        <t:SmtpAddress>"#;

/// A calendar request between that mailbox and the start of the window.
pub const REQUEST_BEFORE_START: &'static str = r#"</t:SmtpAddress>
      </t:ConnectingSID>
    </t:ExchangeImpersonation>
  </soap:Header>
  <soap:Body>
    <m:FindItem Traversal="Shallow">
      <m:ItemShape>
        <t:BaseShape>Default</t:BaseShape>
        <t:AdditionalProperties>
          <t:FieldURI FieldURI="item:Subject"/>
          <t:FieldURI FieldURI="item:Body"/>
          <t:FieldURI FieldURI="calendar:Start"/>
          <t:FieldURI FieldURI="calendar:End"/>
          <t:FieldURI FieldURI="calendar:Location"/>
          <t:FieldURI FieldURI="calendar:Organizer"/>
          <t:FieldURI FieldURI="calendar:RequiredAttendees"/>
          <t:FieldURI FieldURI="calendar:OptionalAttendees"/>
          <t:FieldURI FieldURI="calendar:IsRecurring"/>
          <t:FieldURI FieldURI="calendar:IsCancelled"/>
        </t:AdditionalProperties>
      </m:ItemShape>
      <m:CalendarView MaxEntriesReturned="1000" StartDate=""#;

/// A calendar request between the start and the end of the window.
pub const REQUEST_BEFORE_END: &'static str = r#"" EndDate=""#;

/// A calendar request between the end of the window and the mailbox whose
/// folder is read.
pub const REQUEST_BEFORE_MAILBOX: &'static str = r#""/>
      <m:ParentFolderIds>
        <t:DistinguishedFolderId Id="calendar">
          <t:Mailbox>
            <t:EmailAddress>"#;

/// The end of a calendar request.
pub const REQUEST_TAIL: &'static str = r#"</t:EmailAddress>
          </t:Mailbox>
        </t:DistinguishedFolderId>
      </m:ParentFolderIds>
    </m:FindItem>
  </soap:Body>
</soap:Envelope>"#;

/// The content type of every request.
pub const CONTENT_TYPE: &'static str = "text/xml; charset=utf-8";

/// The request for the events of `email` between `start` and `end`.
pub open spec fn calendar_request_text(email: Seq<char>, start: Seq<char>, end: Seq<char>) -> Seq<
    char,
> {
    REQUEST_HEAD@ + email + REQUEST_BEFORE_START@ + start + REQUEST_BEFORE_END@ + end
        + REQUEST_BEFORE_MAILBOX@ + email + REQUEST_TAIL@
}

/// The request for the events of `email` between `start` and `end`.
pub fn calendar_request(email: &str, start: &str, end: &str) -> (request: String)
    ensures
        request@ == calendar_request_text(email@, start@, end@),
{
    String::from_str(REQUEST_HEAD).concat(email).concat(REQUEST_BEFORE_START).concat(start).concat(
        REQUEST_BEFORE_END,
    ).concat(end).concat(REQUEST_BEFORE_MAILBOX).concat(email).concat(REQUEST_TAIL)
}

/// The text that opens a calendar item.
pub open spec fn item_open() -> Seq<char> {
    "<t:CalendarItem"@
}

/// The text that closes a calendar item.
pub open spec fn item_close() -> Seq<char> {
    "</t:CalendarItem>"@
}

/// `value` where there is one, `fallback` otherwise.
pub open spec fn or_text(value: Option<Seq<char>>, fallback: Seq<char>) -> Seq<char> {
    match value {
        Some(v) => v,
        None => fallback,
    }
}

/// The body of an event: of what stands between the body's opening and its
/// end, the part after the last `>`.
pub open spec fn body_of(item: Seq<char>) -> Option<Seq<char>> {
    match between(item, "<t:Body"@, "</t:Body>"@) {
        Some(b) => Some(after_last(b, '>')),
        None => None,
    }
}

/// The event that the text of one calendar item describes.
pub open spec fn event_of(item: Seq<char>) -> EventView {
    EventView {
        id: or_text(between(item, "ItemId Id=\""@, "\""@), Seq::empty()),
        subject: or_text(between(item, "<t:Subject>"@, "</t:Subject>"@), "Untitled"@),
        body: body_of(item),
        start: or_text(between(item, "<t:Start>"@, "</t:Start>"@), Seq::empty()),
        end: or_text(between(item, "<t:End>"@, "</t:End>"@), Seq::empty()),
        location: between(item, "<t:Location>"@, "</t:Location>"@),
        organizer: between(item, "<t:EmailAddress>"@, "</t:EmailAddress>"@),
        attendees: Seq::empty(),
        is_recurring: contains_text(item, "<t:IsRecurring>true"@),
        is_cancelled: contains_text(item, "<t:IsCancelled>true"@),
    }
}

/// Of the text behind an item's opening, the part up to the next opening.
pub open spec fn first_item(rest: Seq<char>) -> Seq<char> {
    match find_from(rest, item_open(), 0) {
        Some(next) => rest.subrange(0, next),
        None => rest,
    }
}

/// The events of a calendar answer, in the order of their items. An item
/// reaches from behind its opening to the next opening; one that is not
/// closed before that yields no event.
pub open spec fn events_of(xml: Seq<char>) -> Seq<EventView>
    decreases xml.len(),
    via events_of_decreases
{
    match find_from(xml, item_open(), 0) {
        None => Seq::empty(),
        Some(at) => {
            let rest = xml.skip(at + item_open().len());
            let item = first_item(rest);
            match find_from(item, item_close(), 0) {
                Some(end) => seq![event_of(item.subrange(0, end))] + events_of(rest),
                None => events_of(rest),
            }
        },
    }
}

#[via_fn]
proof fn events_of_decreases(xml: Seq<char>) {
    reveal_strlit("<t:CalendarItem");
    lemma_find_from_is_least(xml, item_open(), 0);
}

/// The string of optional characters.
fn optional_string(value: Option<Vec<char>>) -> (s: Option<String>)
    ensures
        crate::ad_client::text_of(s) == match value {
            Some(v) => Some(v@),
            None => None,
        },
{
    match value {
        Some(v) => Some(string_of(&v)),
        None => None,
    }
}

/// What stands in `item` between `start` and `end`.
fn tagged(item: &Vec<char>, start: &str, end: &str) -> (value: Option<Vec<char>>)
    ensures
        match value {
            Some(v) => between(item@, start@, end@) == Some(v@),
            None => between(item@, start@, end@) is None,
        },
{
    let start_chars = chars_of(start);
    let end_chars = chars_of(end);
    extract(item, &start_chars, &end_chars)
}

/// What stands in `item` between `start` and `end`, or `fallback`.
fn tagged_or(item: &Vec<char>, start: &str, end: &str, fallback: &str) -> (value: String)
    ensures
        value@ == or_text(between(item@, start@, end@), fallback@),
{
    match tagged(item, start, end) {
        Some(v) => string_of(&v),
        None => fallback.to_owned(),
    }
}

/// Whether `mark` stands in `item`.
fn holds(item: &Vec<char>, mark: &str) -> (found: bool)
    ensures
        found == contains_text(item@, mark@),
{
    let mark_chars = chars_of(mark);
    find(item, &mark_chars, 0).is_some()
}

/// The event that the text of one calendar item describes.
pub fn event_from_item(item: &Vec<char>) -> (event: CalendarEvent)
    ensures
        event@ == event_of(item@),
{
    let body = match tagged(item, "<t:Body", "</t:Body>") {
        Some(b) => {
            let tail = final_segment(&b, '>');
            Some(string_of(&tail))
        },
        None => None,
    };
    proof {
        reveal_strlit("");
        assert(""@ =~= Seq::<char>::empty());
    }
    CalendarEvent {
        id: tagged_or(item, "ItemId Id=\"", "\"", ""),
        subject: tagged_or(item, "<t:Subject>", "</t:Subject>", "Untitled"),
        body,
        start: tagged_or(item, "<t:Start>", "</t:Start>", ""),
        end: tagged_or(item, "<t:End>", "</t:End>", ""),
        location: optional_string(tagged(item, "<t:Location>", "</t:Location>")),
        organizer: optional_string(tagged(item, "<t:EmailAddress>", "</t:EmailAddress>")),
        attendees: Vec::new(),
        is_recurring: holds(item, "<t:IsRecurring>true"),
        is_cancelled: holds(item, "<t:IsCancelled>true"),
    }
}

/// What stands in `xml` between the first `start_tag` and the first
/// `end_tag` after it; nothing where either is missing.
pub fn extract_xml_value(xml: &str, start_tag: &str, end_tag: &str) -> (value: Option<String>)
    ensures
        crate::ad_client::text_of(value) == between(xml@, start_tag@, end_tag@),
{
    let chars = chars_of(xml);
    optional_string(tagged(&chars, start_tag, end_tag))
}

/// Reads the events out of a calendar answer. Every answer can be read: one
/// without items holds no events.
pub fn parse_calendar_response(xml: &str) -> (events: Result<Vec<CalendarEvent>, String>)
    ensures
        events matches Ok(list) && event_views(list@) == events_of(xml@),
{
    let chars = chars_of(xml);
    let open = chars_of("<t:CalendarItem");
    let close = chars_of("</t:CalendarItem>");
    let mut events: Vec<CalendarEvent> = Vec::new();
    let mut pos: usize = 0;
    proof {
        reveal_strlit("<t:CalendarItem");
        assert(chars@.skip(0) =~= chars@);
        assert(event_views(events@) + events_of(chars@) =~= events_of(chars@));
    }
    loop
        invariant
            pos <= chars.len(),
            open@ == item_open(),
            close@ == item_close(),
            open@.len() > 0,
            event_views(events@) + events_of(chars@.skip(pos as int)) == events_of(chars@),
        ensures
            event_views(events@) == events_of(chars@),
        decreases chars.len() - pos,
    {
        let ghost here = chars@.skip(pos as int);
        proof {
            lemma_find_from_skip(chars@, open@, pos as int, 0);
            lemma_find_from_is_least(chars@, open@, pos as int);
        }
        match find(&chars, &open, pos) {
            None => {
                proof {
                    assert(events_of(here) =~= Seq::<EventView>::empty());
                    assert(event_views(events@) + Seq::<EventView>::empty() =~= event_views(
                        events@,
                    ));
                }
                break ;
            },
            Some(at) => {
                proof {
                    assert(at + open.len() <= chars.len());
                }
                let start: usize = at + open.len();
                let ghost rest = chars@.skip(start as int);
                proof {
                    assert(here.skip(at - pos + open@.len()) =~= rest);
                    lemma_find_from_skip(chars@, open@, start as int, 0);
                    lemma_find_from_is_least(chars@, open@, start as int);
                }
                let stop: usize = match find(&chars, &open, start) {
                    Some(next) => next,
                    None => chars.len(),
                };
                let item = slice_of(&chars, start, stop);
                proof {
                    assert(item@ =~= first_item(rest));
                    lemma_find_from_is_least(item@, close@, 0);
                }
                let ghost before = event_views(events@);
                match find(&item, &close, 0) {
                    Some(end) => {
                        let inner = slice_of(&item, 0, end);
                        let event = event_from_item(&inner);
                        events.push(event);
                        proof {
                            assert(event_views(events@) =~= before.push(event@));
                            assert(before.push(event@) + events_of(rest) =~= before + (seq![
                                event@,
                            ] + events_of(rest)));
                        }
                    },
                    None => {},
                }
                pos = start;
            },
        }
    }
    Ok(events)
}

/// The settings of the calendar client.
#[derive(Debug, Clone, PartialEq, Eq)]
pub struct EWSClient {
    url: String,
    username: String,
    password: String,
}

/// What an `EWSClient` holds, as sequences of characters.
pub struct CalendarClientView {
    pub url: Seq<char>,
    pub username: Seq<char>,
    pub password: Seq<char>,
}

impl View for EWSClient {
    type V = CalendarClientView;

    closed spec fn view(&self) -> CalendarClientView {
        CalendarClientView { url: self.url@, username: self.username@, password: self.password@ }
    }
}

/// What the calendar service answered to one request.
#[derive(Debug, Clone, PartialEq, Eq)]
pub enum CalendarReply {
    /// The request could not be sent or answered; with the transport's words.
    RequestFailed(String),
    /// The service answered with a status that is no success; with the status.
    Refused(String),
    /// The service answered with success, but the answer could not be read;
    /// with the transport's words.
    Unreadable(String),
    /// The service answered with success and this text.
    Body(String),
}

/// The error that a reply amounts to, where it is one.
pub open spec fn reply_error(reply: CalendarReply) -> Option<Seq<char>> {
    match reply {
        CalendarReply::RequestFailed(detail) => Some("EWS request failed: "@ + detail@),
        CalendarReply::Refused(status) => Some("EWS returned "@ + status@),
        CalendarReply::Unreadable(detail) => Some("Failed to read response: "@ + detail@),
        CalendarReply::Body(_) => None,
    }
}

impl EWSClient {
    /// A client for the calendar service at `url`, signing in as `username`.
    pub fn new(url: &str, username: &str, password: &str) -> (client: EWSClient)
        ensures
            client@ == (CalendarClientView {
                url: url@,
                username: username@,
                password: password@,
            }),
    {
        EWSClient {
            url: url.to_owned(),
            username: username.to_owned(),
            password: password.to_owned(),
        }
    }

    /// The address of the calendar service.
    pub fn url(&self) -> (url: &str)
        ensures
            url@ == self@.url,
    {
        self.url.as_str()
    }

    /// The account that the client signs in as.
    pub fn username(&self) -> (username: &str)
        ensures
            username@ == self@.username,
    {
        self.username.as_str()
    }

    /// The password of that account.
    pub fn password(&self) -> (password: &str)
        ensures
            password@ == self@.password,
    {
        self.password.as_str()
    }
}

/// Whether the answer to the probe shows that the service can be reached:
/// any answer with a success status does, read or not.
pub fn connection_outcome(reply: &CalendarReply) -> (outcome: Result<(), String>)
    ensures
        match outcome {
            Ok(_) => reply is Body || reply is Unreadable,
            Err(message) => !(reply is Body) && !(reply is Unreadable) && reply_error(*reply)
                == Some(message@),
        },
{
    match reply {
        CalendarReply::RequestFailed(detail) => Err(
            String::from_str("EWS request failed: ").concat(detail.as_str()),
        ),
        CalendarReply::Refused(status) => Err(
            String::from_str("EWS returned ").concat(status.as_str()),
        ),
        CalendarReply::Unreadable(_) => Ok(()),
        CalendarReply::Body(_) => Ok(()),
    }
}

/// The events of the answer to a calendar request, or the error that the
/// answer amounts to.
pub fn events_outcome(reply: &CalendarReply) -> (outcome: Result<Vec<CalendarEvent>, String>)
    ensures
        match outcome {
            Ok(events) => reply matches CalendarReply::Body(xml) && event_views(events@)
                == events_of(xml@),
            Err(message) => reply_error(*reply) == Some(message@),
        },
{
    match reply {
        CalendarReply::RequestFailed(detail) => Err(
            String::from_str("EWS request failed: ").concat(detail.as_str()),
        ),
        CalendarReply::Refused(status) => Err(
            String::from_str("EWS returned ").concat(status.as_str()),
        ),
        CalendarReply::Unreadable(detail) => Err(
            String::from_str("Failed to read response: ").concat(detail.as_str()),
        ),
        CalendarReply::Body(xml) => parse_calendar_response(xml.as_str()),
    }
}

/// The error for a window of which an end is no date that can be written.
pub const WINDOW_ERROR: &'static str = "Calendar window out of range";

/// The seconds of one day.
pub const SECONDS_PER_DAY: i64 = 86400;

/// The moment `seconds` seconds after the start of 1970 as a UTC text;
/// nothing where the number does not fit the machine or the calendar
/// cannot hold the moment.
pub open spec fn moment_text(seconds: int) -> Option<Seq<char>> {
    if i64::MIN <= seconds <= i64::MAX {
        utc_text(seconds)
    } else {
        None
    }
}

/// The request for the events of `email` in the window from `days_back`
/// days before the moment `now` to `days_forward` days after it; the error
/// where an end of the window cannot be written.
pub open spec fn request_at(email: Seq<char>, now: int, days_back: int, days_forward: int)
    -> Result<Seq<char>, Seq<char>> {
    match (
        moment_text(now - SECONDS_PER_DAY * days_back),
        moment_text(now + SECONDS_PER_DAY * days_forward),
    ) {
        (Some(start), Some(end)) => Ok(calendar_request_text(email, start, end)),
        _ => Err(WINDOW_ERROR@),
    }
}

/// Whether `request` is, character by character, what `expected` says.
pub open spec fn is_request(request: Result<String, String>, expected: Result<Seq<char>, Seq<char>>)
    -> bool {
    match request {
        Ok(text) => expected == Ok::<Seq<char>, Seq<char>>(text@),
        Err(message) => expected == Err::<Seq<char>, Seq<char>>(message@),
    }
}

/// The moment `days` days after `now`, or before it where `days` is
/// negative, as a UTC text.
fn shifted(now: i64, days: i64) -> (text: Option<String>)
    requires
        -2147483648 <= days <= 2147483648,
    ensures
        match text {
            Some(t) => moment_text(now + SECONDS_PER_DAY * days) == Some(t@),
            None => moment_text(now + SECONDS_PER_DAY * days) is None,
        },
{
    match now.checked_add(SECONDS_PER_DAY * days) {
        Some(seconds) => format_utc(seconds),
        None => None,
    }
}

/// The request for the events of `email` in the window from `days_back`
/// days before the moment `now`, given in seconds from the start of 1970,
/// to `days_forward` days after it.
pub fn events_request_at(email: &str, now: i64, days_back: i32, days_forward: i32) -> (request:
    Result<String, String>)
    ensures
        is_request(request, request_at(email@, now as int, days_back as int, days_forward as int)),
{
    let back: i64 = days_back as i64;
    let start = shifted(now, -back);
    let end = shifted(now, days_forward as i64);
    match (start, end) {
        (Some(start), Some(end)) => Ok(calendar_request(email, start.as_str(), end.as_str())),
        _ => Err(String::from_str(WINDOW_ERROR)),
    }
}

/// The request for the events of `email` in the window from `days_back`
/// days before the present moment to `days_forward` days after it.
pub fn events_request(email: &str, days_back: i32, days_forward: i32) -> (request: Result<
    String,
    String,
>)
    ensures
        exists|now: int|
            is_request(request, #[trigger] request_at(email@, now, days_back as int, days_forward as int)),
{
    let now: i64 = utc_seconds();
    let request = events_request_at(email, now, days_back, days_forward);
    proof {
        assert(is_request(
            request,
            request_at(email@, now as int, days_back as int, days_forward as int),
        ));
    }
    request
}

} // verus!
