use winio_ui::uri::{file_handle_kind, uri_source, FileHandleKind, OpenMode, UriSource};
use winio_ui::filebox::{
    content_type_requests, filter_request, resolved_types, ContentTypeRequest, FileBox, FileFilter,
};
use winio_ui::msgbox::{
    alert_actions, alert_fits, AlertActionStyle, CustomButton, MessageBox, MessageBoxButton,
    MessageBoxResponse, MessageBoxStyle, ReplyOnce, BUTTON_CANCEL, BUTTON_CLOSE, BUTTON_NO,
    BUTTON_OK, BUTTON_RETRY, BUTTON_YES,
};

#[test]
fn file_filter_keeps_name_and_pattern() {
    let f = FileFilter::new("Text files", "*.txt");
    assert_eq!(f.name(), "Text files");
    assert_eq!(f.pattern(), "*.txt");
}

#[test]
fn file_box_builder_collects_settings() {
    let mut b = FileBox::new();
    assert_eq!(b.get_title(), "");
    assert_eq!(b.get_filename(), "");
    assert!(b.get_filters().is_empty());
    b.title("Open");
    b.filename("a.txt");
    b.add_filter(FileFilter::new("Text", "*.txt"));
    b.add_filter(FileFilter::new("All", "*.*"));
    assert_eq!(b.get_title(), "Open");
    assert_eq!(b.get_filename(), "a.txt");
    assert_eq!(b.get_filters().len(), 2);
    assert_eq!(b.get_filters()[1].pattern(), "*.*");
    b.filters(vec![FileFilter::new("Images", "*.png")]);
    assert_eq!(b.get_filters().len(), 1);
    assert_eq!(b.get_filters()[0].name(), "Images");
}

#[test]
fn filter_request_strips_star_dot() {
    assert_eq!(filter_request("*.txt"), ContentTypeRequest::Extension("txt".to_string()));
    assert_eq!(filter_request("png"), ContentTypeRequest::Extension("png".to_string()));
    assert_eq!(filter_request("*."), ContentTypeRequest::Extension(String::new()));
}

#[test]
fn filter_request_match_all_patterns_ask_for_data() {
    assert_eq!(filter_request("*.*"), ContentTypeRequest::Data);
    assert_eq!(filter_request("*"), ContentTypeRequest::Data);
    assert_eq!(filter_request("**"), ContentTypeRequest::Extension("**".to_string()));
}

#[test]
fn content_types_follow_filters_or_folder() {
    let filters = vec![
        FileFilter::new("Text", "*.txt"),
        FileFilter::new("All", "*"),
        FileFilter::new("Rust", "*.rs"),
    ];
    assert_eq!(
        content_type_requests(&filters, false),
        vec![
            ContentTypeRequest::Extension("txt".to_string()),
            ContentTypeRequest::Data,
            ContentTypeRequest::Extension("rs".to_string()),
        ]
    );
    assert_eq!(content_type_requests(&filters, true), vec![ContentTypeRequest::Directory]);
    assert_eq!(content_type_requests(&Vec::new(), false), vec![]);
}

#[test]
fn resolved_types_keep_order_and_fall_back_to_data() {
    assert_eq!(resolved_types(vec![Some(1), None, Some(3)], 0), vec![1, 3]);
    assert_eq!(resolved_types(vec![None, None], 7), vec![7]);
    assert_eq!(resolved_types(Vec::<Option<i32>>::new(), 7), vec![7]);
}

#[test]
fn message_box_buttons_as_bits() {
    let b = MessageBoxButton::from_bits(BUTTON_OK).union(MessageBoxButton::from_bits(BUTTON_CANCEL));
    assert_eq!(b.bits(), 9);
    assert!(b.contains(MessageBoxButton::from_bits(BUTTON_OK)));
    assert!(!b.contains(MessageBoxButton::from_bits(BUTTON_YES)));
    assert_eq!(MessageBoxButton::empty().bits(), 0);
}

#[test]
fn alert_actions_in_fixed_order() {
    let all = MessageBoxButton::from_bits(
        BUTTON_CLOSE | BUTTON_RETRY | BUTTON_CANCEL | BUTTON_NO | BUTTON_YES | BUTTON_OK,
    );
    let actions = alert_actions(all, &Vec::new());
    let got: Vec<(MessageBoxResponse, &str, AlertActionStyle)> =
        actions.iter().map(|a| (a.response, a.title.as_str(), a.style)).collect();
    assert_eq!(
        got,
        vec![
            (MessageBoxResponse::Okay, "Ok", AlertActionStyle::Default),
            (MessageBoxResponse::Yes, "Yes", AlertActionStyle::Default),
            (MessageBoxResponse::No, "No", AlertActionStyle::Default),
            (MessageBoxResponse::Cancel, "Cancel", AlertActionStyle::Cancel),
            (MessageBoxResponse::Retry, "Try again", AlertActionStyle::Default),
            (MessageBoxResponse::Close, "Close", AlertActionStyle::Default),
        ]
    );
}

#[test]
fn alert_custom_actions_follow_standard_ones() {
    let b = MessageBoxButton::from_bits(BUTTON_CANCEL | BUTTON_OK);
    let custom = vec![CustomButton::new(42, "Later"), CustomButton::new(7, "Never")];
    let actions = alert_actions(b, &custom);
    let got: Vec<(MessageBoxResponse, &str, AlertActionStyle)> =
        actions.iter().map(|a| (a.response, a.title.as_str(), a.style)).collect();
    assert_eq!(
        got,
        vec![
            (MessageBoxResponse::Okay, "Ok", AlertActionStyle::Default),
            (MessageBoxResponse::Cancel, "Cancel", AlertActionStyle::Cancel),
            (MessageBoxResponse::Custom(42), "Later", AlertActionStyle::Default),
            (MessageBoxResponse::Custom(7), "Never", AlertActionStyle::Default),
        ]
    );
}

#[test]
fn alert_fits_at_most_six_actions() {
    let all = MessageBoxButton::from_bits(
        BUTTON_CLOSE | BUTTON_RETRY | BUTTON_CANCEL | BUTTON_NO | BUTTON_YES | BUTTON_OK,
    );
    assert!(alert_fits(all, &Vec::new()));
    assert!(!alert_fits(all, &vec![CustomButton::new(1, "x")]));
    let five: Vec<CustomButton> = (0..5).map(|i| CustomButton::new(i, "c")).collect();
    assert!(alert_fits(MessageBoxButton::from_bits(BUTTON_OK), &five));
    let six: Vec<CustomButton> = (0..6).map(|i| CustomButton::new(i, "c")).collect();
    assert!(!alert_fits(MessageBoxButton::from_bits(BUTTON_OK), &six));
    assert!(alert_fits(MessageBoxButton::empty(), &six));
}

#[test]
fn alert_actions_only_for_chosen_buttons() {
    let b = MessageBoxButton::from_bits(BUTTON_NO | BUTTON_YES);
    let actions = alert_actions(b, &Vec::new());
    assert_eq!(actions.len(), 2);
    assert_eq!(actions[0].response, MessageBoxResponse::Yes);
    assert_eq!(actions[1].response, MessageBoxResponse::No);
    assert!(alert_actions(MessageBoxButton::empty(), &Vec::new()).is_empty());
}

#[test]
fn message_box_alert_plan() {
    let mut m = MessageBox::new();
    m.title("Title");
    m.message("Text");
    m.instruction("Read");
    m.style(MessageBoxStyle::Warning);
    m.buttons(MessageBoxButton::from_bits(BUTTON_OK));
    m.custom_button(CustomButton::new(3, "Three"));
    m.custom_buttons(vec![CustomButton::new(4, "Four")]);
    assert_eq!(m.get_style(), MessageBoxStyle::Warning);
    assert_eq!(m.get_custom_buttons().len(), 2);
    let plan = m.alert_plan();
    assert_eq!(plan.title, "Title");
    assert_eq!(plan.message, "Text");
    let responses: Vec<MessageBoxResponse> = plan.actions.iter().map(|a| a.response).collect();
    assert_eq!(
        responses,
        vec![MessageBoxResponse::Okay, MessageBoxResponse::Custom(3), MessageBoxResponse::Custom(4)]
    );
}

#[test]
fn message_box_defaults() {
    let m = MessageBox::new();
    assert_eq!(m.get_message(), "");
    assert_eq!(m.get_title(), "");
    assert_eq!(m.get_instruction(), "");
    assert_eq!(m.get_style(), MessageBoxStyle::NoIcon);
    assert_eq!(m.get_buttons().bits(), 0);
}

#[test]
fn reply_once_delivers_first_answer() {
    let mut r = ReplyOnce::new();
    assert_eq!(r.sent(), None);
    assert!(r.fire(MessageBoxResponse::Retry));
    assert!(!r.fire(MessageBoxResponse::Cancel));
    assert_eq!(r.sent(), Some(MessageBoxResponse::Retry));
}

#[test]
fn uri_paths_and_modes() {
    assert_eq!(uri_source(Some(4)), UriSource::Parsed);
    assert_eq!(uri_source(Some(0)), UriSource::FilePath);
    assert_eq!(uri_source(None), UriSource::FilePath);
    assert_eq!(file_handle_kind(OpenMode::Read), FileHandleKind::Reading);
    assert_eq!(file_handle_kind(OpenMode::Write), FileHandleKind::Writing);
    assert_eq!(file_handle_kind(OpenMode::ReadWrite), FileHandleKind::Updating);
}
