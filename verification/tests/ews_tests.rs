use ekf_connector::ews_client::{
    calendar_request, connection_outcome, event_from_item, events_outcome, events_request,
    events_request_at, extract_xml_value, parse_calendar_response, CalendarEvent, CalendarReply,
    EWSClient, CONTENT_TYPE, PROBE_ENVELOPE, REQUEST_HEAD, REQUEST_TAIL, SECONDS_PER_DAY,
    WINDOW_ERROR,
};

const ANSWER: &str = r#"<?xml version="1.0"?><m:Items>
<t:CalendarItem><t:ItemId Id="AAA=" ChangeKey="ck1"/><t:Subject>Weekly sync</t:Subject>
<t:Body BodyType="Text">Agenda &gt; notes</t:Body><t:Start>2026-01-05T09:00:00Z</t:Start>
<t:End>2026-01-05T10:00:00Z</t:End><t:Location>Room 1</t:Location>
<t:Organizer><t:Mailbox><t:EmailAddress>boss@example.com</t:EmailAddress></t:Mailbox></t:Organizer>
<t:IsRecurring>true</t:IsRecurring><t:IsCancelled>false</t:IsCancelled></t:CalendarItem>
<t:CalendarItem><t:ItemId Id="BBB=" ChangeKey="ck2"/>
<t:IsRecurring>false</t:IsRecurring><t:IsCancelled>true</t:IsCancelled></t:CalendarItem>
<t:CalendarItem><t:ItemId Id="CCC="/><t:Subject>Never closed</t:Subject>
</m:Items>"#;

fn untitled(id: &str) -> CalendarEvent {
    CalendarEvent {
        id: id.to_string(),
        subject: "Untitled".to_string(),
        body: None,
        start: String::new(),
        end: String::new(),
        location: None,
        organizer: None,
        attendees: vec![],
        is_recurring: false,
        is_cancelled: false,
    }
}

#[test]
fn a_value_stands_between_its_tags() {
    assert_eq!(
        extract_xml_value("<t:Subject>Hello</t:Subject>", "<t:Subject>", "</t:Subject>").as_deref(),
        Some("Hello")
    );
    assert_eq!(
        extract_xml_value("<a>1</a><a>2</a>", "<a>", "</a>").as_deref(),
        Some("1")
    );
    assert_eq!(extract_xml_value("<a>1", "<a>", "</a>"), None);
    assert_eq!(extract_xml_value("1</a>", "<a>", "</a>"), None);
    assert_eq!(extract_xml_value("", "<a>", "</a>"), None);
    assert_eq!(extract_xml_value("</a><a>x</a>", "<a>", "</a>").as_deref(), Some("x"));
    assert_eq!(
        extract_xml_value("<t:ItemId Id=\"AAA=\" ChangeKey=\"ck\"/>", "ItemId Id=\"", "\"").as_deref(),
        Some("AAA=")
    );
    assert_eq!(
        extract_xml_value("<a>Встреча ü</a>", "<a>", "</a>").as_deref(),
        Some("Встреча ü")
    );
    assert_eq!(extract_xml_value("<a></a>", "<a>", "</a>").as_deref(), Some(""));
    assert_eq!(extract_xml_value("abc", "", "c").as_deref(), Some("ab"));
}

#[test]
fn events_are_read_item_by_item() {
    let events = parse_calendar_response(ANSWER).unwrap();
    assert_eq!(events.len(), 2);
    assert_eq!(
        events[0],
        CalendarEvent {
            id: "AAA=".to_string(),
            subject: "Weekly sync".to_string(),
            body: Some("Agenda &gt; notes".to_string()),
            start: "2026-01-05T09:00:00Z".to_string(),
            end: "2026-01-05T10:00:00Z".to_string(),
            location: Some("Room 1".to_string()),
            organizer: Some("boss@example.com".to_string()),
            attendees: vec![],
            is_recurring: true,
            is_cancelled: false,
        }
    );
    let mut second = untitled("BBB=");
    second.is_cancelled = true;
    assert_eq!(events[1], second);
}

#[test]
fn an_answer_without_items_holds_no_events() {
    assert_eq!(parse_calendar_response(""), Ok(vec![]));
    assert_eq!(parse_calendar_response("<m:Items></m:Items>"), Ok(vec![]));
    assert_eq!(parse_calendar_response("<t:CalendarItem><t:Subject>x</t:Subject>"), Ok(vec![]));
    assert_eq!(parse_calendar_response("</t:CalendarItem>"), Ok(vec![]));
}

#[test]
fn an_item_ends_where_the_next_begins() {
    let xml = "<t:CalendarItem><t:Subject>open</t:Subject><t:CalendarItem><t:Subject>shut</t:Subject></t:CalendarItem>";
    let events = parse_calendar_response(xml).unwrap();
    assert_eq!(events.len(), 1);
    assert_eq!(events[0].subject, "shut");
    assert_eq!(events[0].id, "");
    let two = "<t:CalendarItem>a</t:CalendarItem><t:CalendarItem>b</t:CalendarItem>";
    assert_eq!(parse_calendar_response(two), Ok(vec![untitled(""), untitled("")]));
}

#[test]
fn the_body_is_what_follows_its_last_bracket() {
    let item: Vec<char> = "<t:Body BodyType=\"HTML\"><p>Hi</p> there</t:Body>".chars().collect();
    assert_eq!(event_from_item(&item).body.as_deref(), Some(" there"));
    let plain: Vec<char> = "<t:Body>text</t:Body>".chars().collect();
    assert_eq!(event_from_item(&plain).body.as_deref(), Some("text"));
    let none: Vec<char> = "<t:Subject>s</t:Subject>".chars().collect();
    assert_eq!(event_from_item(&none).body, None);
    assert_eq!(event_from_item(&none).subject, "s");
    let empty: Vec<char> = Vec::new();
    assert_eq!(event_from_item(&empty), untitled(""));
}

#[test]
fn the_request_names_the_mailbox_twice_and_the_window_once() {
    let request = calendar_request("a@example.com", "2026-01-01T00:00:00Z", "2026-02-07T00:00:00Z");
    assert!(request.starts_with("<?xml version=\"1.0\" encoding=\"utf-8\"?>\n<soap:Envelope"));
    assert!(request.starts_with(REQUEST_HEAD));
    assert!(request.ends_with(REQUEST_TAIL));
    assert!(request.ends_with("</soap:Envelope>"));
    assert!(request.contains("<t:SmtpAddress>a@example.com</t:SmtpAddress>"));
    assert!(request.contains("<t:EmailAddress>a@example.com</t:EmailAddress>"));
    assert!(request.contains(
        "<m:CalendarView MaxEntriesReturned=\"1000\" StartDate=\"2026-01-01T00:00:00Z\" EndDate=\"2026-02-07T00:00:00Z\"/>"
    ));
    assert_eq!(request.matches("a@example.com").count(), 2);
    assert_eq!(
        request.len(),
        calendar_request("", "", "").len() + 2 * "a@example.com".len() + 2 * "2026-01-01T00:00:00Z".len()
    );
    assert!(PROBE_ENVELOPE.contains("<m:GetFolder>"));
    assert!(PROBE_ENVELOPE.contains("<t:DistinguishedFolderId Id=\"calendar\"/>"));
    assert_eq!(CONTENT_TYPE, "text/xml; charset=utf-8");
}

#[test]
fn the_window_reaches_back_and_forward_from_the_moment_given() {
    let request = events_request_at("a@example.com", 1767225600, 7, 30).unwrap();
    assert_eq!(
        request,
        calendar_request("a@example.com", "2025-12-25T00:00:00Z", "2026-01-31T00:00:00Z")
    );
    let same_day = events_request_at("a@example.com", 1767225600 + 3661, 0, 0).unwrap();
    assert_eq!(
        same_day,
        calendar_request("a@example.com", "2026-01-01T01:01:01Z", "2026-01-01T01:01:01Z")
    );
    let inverted = events_request_at("b@example.com", 0, -1, -2).unwrap();
    assert_eq!(
        inverted,
        calendar_request("b@example.com", "1970-01-02T00:00:00Z", "1969-12-30T00:00:00Z")
    );
    let before_1970 = events_request_at("b@example.com", -1, 0, 1).unwrap();
    assert_eq!(
        before_1970,
        calendar_request("b@example.com", "1969-12-31T23:59:59Z", "1970-01-01T23:59:59Z")
    );
}

#[test]
fn a_window_that_cannot_be_written_is_an_error() {
    assert_eq!(SECONDS_PER_DAY, 86400);
    assert_eq!(
        events_request_at("a@example.com", 1767225600, i32::MAX, 0),
        Err("Calendar window out of range".to_string())
    );
    assert_eq!(
        events_request_at("a@example.com", 1767225600, 0, i32::MAX),
        Err(WINDOW_ERROR.to_string())
    );
    assert_eq!(events_request_at("a@example.com", i64::MAX, 0, 1), Err(WINDOW_ERROR.to_string()));
    assert_eq!(events_request_at("a@example.com", i64::MIN, 1, 0), Err(WINDOW_ERROR.to_string()));
    assert_eq!(events_request_at("a@example.com", i64::MAX, 0, 0), Err(WINDOW_ERROR.to_string()));
    assert!(events_request_at("a@example.com", 0, i32::MIN, i32::MIN).is_err());
    assert!(events_request_at("a@example.com", 1767225600, 36500, 36500).is_ok());
}

#[test]
fn the_request_for_now_spans_the_window_asked_for() {
    let request = events_request("a@example.com", 7, 30).unwrap();
    let start = extract_xml_value(&request, "StartDate=\"", "\"").unwrap();
    let end = extract_xml_value(&request, "EndDate=\"", "\"").unwrap();
    assert_eq!(start.len(), 20);
    assert_eq!(end.len(), 20);
    assert!(start.ends_with('Z'));
    assert!(start < end);
    assert_eq!(request, calendar_request("a@example.com", &start, &end));
    assert_eq!(
        events_request("a@example.com", i32::MAX, 0),
        Err("Calendar window out of range".to_string())
    );
    assert_eq!(events_request("a@example.com", 0, i32::MAX), Err(WINDOW_ERROR.to_string()));
    assert!(events_request("a@example.com", -3, -1).is_ok());
    assert!(events_request("a@example.com", i32::MIN, i32::MIN).is_err());
}

#[test]
fn a_reply_is_events_or_an_error() {
    assert_eq!(
        events_outcome(&CalendarReply::RequestFailed("timed out".to_string())),
        Err("EWS request failed: timed out".to_string())
    );
    assert_eq!(
        events_outcome(&CalendarReply::Refused("401 Unauthorized".to_string())),
        Err("EWS returned 401 Unauthorized".to_string())
    );
    assert_eq!(
        events_outcome(&CalendarReply::Unreadable("reset".to_string())),
        Err("Failed to read response: reset".to_string())
    );
    let events = events_outcome(&CalendarReply::Body(ANSWER.to_string())).unwrap();
    assert_eq!(events.len(), 2);
    assert_eq!(events_outcome(&CalendarReply::Body(String::new())), Ok(vec![]));
}

#[test]
fn a_probe_succeeds_on_any_success_status() {
    assert_eq!(connection_outcome(&CalendarReply::Body("x".to_string())), Ok(()));
    assert_eq!(connection_outcome(&CalendarReply::Unreadable("x".to_string())), Ok(()));
    assert_eq!(
        connection_outcome(&CalendarReply::Refused("500 Internal Server Error".to_string())),
        Err("EWS returned 500 Internal Server Error".to_string())
    );
    assert_eq!(
        connection_outcome(&CalendarReply::RequestFailed("dns".to_string())),
        Err("EWS request failed: dns".to_string())
    );
}

#[test]
fn the_calendar_client_keeps_its_settings() {
    let client = EWSClient::new("https://post.ekf.su/EWS/Exchange.asmx", "svc", "secret");
    assert_eq!(client.url(), "https://post.ekf.su/EWS/Exchange.asmx");
    assert_eq!(client.username(), "svc");
    assert_eq!(client.password(), "secret");
}
