use cs2kz::problem_details::{content_type, content_type_str, ExtensionMembers, ProblemDetails};

#[test]
fn content_type_is_problem_json() {
    assert_eq!(content_type_str(), "application/problem+json");
    let mime = content_type();
    assert_eq!(mime.essence_str(), "application/problem+json");
    assert_eq!(mime.type_(), "application");
}

#[test]
fn new_problem_details_are_bare() {
    let details = ProblemDetails::new(404_u16);
    assert_eq!(*details.problem_type(), 404);
    assert_eq!(details.detail(), None);
    assert_eq!(details.instance(), None);
    assert_eq!(details.extension_members().count(), 0);
    assert_eq!(details.field_count(), 3);
}

#[test]
fn setters_and_extensions() {
    let mut details = ProblemDetails::new(400_u16);
    details.set_detail(String::from("bad input"));
    details.set_instance(String::from("/records/1"));
    details.add_extension(String::from("field"), String::from("\"name\""));
    details.add_extension(String::from("limit"), String::from("10"));
    details.add_extension(String::from("field"), String::from("\"time\""));
    assert_eq!(details.detail(), Some("bad input"));
    assert_eq!(details.instance(), Some("/records/1"));
    let members = details.extension_members();
    assert_eq!(members.count(), 2);
    assert_eq!(members.get("field"), Some("\"time\""));
    assert_eq!(members.get("limit"), Some("10"));
    assert_eq!(members.get("other"), None);
    assert_eq!(members.member(0), Some(("field", "\"time\"")));
    assert_eq!(members.member(1), Some(("limit", "10")));
    assert_eq!(members.member(2), None);
    assert_eq!(details.field_count(), 7);
    *details.problem_type_mut() = 409;
    assert_eq!(*details.problem_type(), 409);
    details.extension_members_mut().add(String::from("extra"), String::from("true"));
    assert_eq!(details.extension_members().count(), 3);
}

#[test]
fn extension_members_clone_keeps_the_members() {
    let mut members = ExtensionMembers::new();
    members.add(String::from("a"), String::from("1"));
    members.add(String::from("b"), String::from("2"));
    let copy = members.clone();
    assert_eq!(copy.count(), 2);
    assert_eq!(copy.get("a"), Some("1"));
    assert_eq!(copy.get("b"), Some("2"));
}
