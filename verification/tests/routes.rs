use tutor_service::handlers::create_new_tutor;
use tutor_service::handlers::get_course_details;
use tutor_service::handlers::get_tutor_courses_handler;
use tutor_service::handlers::get_tutor_id;
use tutor_service::handlers::health_check_handler;
use tutor_service::handlers::new_course_handler;
use tutor_service::handlers::CourseInput;
use tutor_service::handlers::TutorInput;
use tutor_service::ids::Id;
use tutor_service::models::Course;
use tutor_service::state::AppState;
use tutor_service::time::Timestamp;

const GREETING: &str = "Tutor Services running fine";

fn fresh_state() -> AppState {
    AppState::new(GREETING.to_string())
}

fn tutor_input(name: &str, email: &str) -> TutorInput {
    TutorInput { name: Some(name.to_string()), email: Some(email.to_string()) }
}

fn course_input(tutor_id: &str, course_name: &str) -> CourseInput {
    CourseInput { tutor_id: Some(tutor_id.to_string()), course_name: Some(course_name.to_string()) }
}

fn uuid_text(id: Id) -> String {
    uuid::Uuid::from_u128(id.value).to_string()
}

#[test]
fn health_check_works() {
    let mut state = fresh_state();
    let response = health_check_handler(&mut state);
    assert_eq!(200, response.status);
    assert!(response.body.contains("Tutor Services running fine"));
    assert_eq!("Tutor Services running fine 0 times", response.body);
}

#[test]
fn test_course_creation() {
    let mut state = fresh_state();

    let tutor_response = create_new_tutor(&mut state, tutor_input("kendrick", "kendrick@gmail.com"));
    assert_eq!(200, tutor_response.status);
    let tutor_id = state.tutors[0].tutor_id;

    let response = new_course_handler(
        &mut state,
        course_input(&uuid_text(tutor_id), "Test Course for Integration Testing"),
    );
    assert_eq!(200, response.status);
    assert!(response.body.contains(&format!("Added course for tutor {}", uuid_text(tutor_id))));
}

#[test]
fn test_get_tutor_courses() {
    let mut state = fresh_state();

    create_new_tutor(&mut state, tutor_input("test_tutor", "test@example.com"));
    let tutor_id = state.tutors[0].tutor_id;

    let create_response =
        new_course_handler(&mut state, course_input(&uuid_text(tutor_id), "Test Course"));
    assert_eq!(200, create_response.status);

    let response = get_tutor_courses_handler(&state, tutor_id);
    assert_eq!(200, response.status);

    // A JSON array with exactly one course, carrying the expected fields.
    assert!(response.body.starts_with('['));
    assert!(response.body.ends_with(']'));
    assert_eq!(1, response.body.matches("\"course_name\"").count());
    assert!(response.body.contains(&format!("\"tutor_id\":\"{}\"", uuid_text(tutor_id))));
    assert!(response.body.contains("\"course_name\":\"Test Course\""));
    assert!(response.body.contains("\"posted_time\":\""));
    assert!(response.body.contains("\"course_id\":\""));
}

#[test]
fn test_get_course_details() {
    let mut state = fresh_state();

    create_new_tutor(&mut state, tutor_input("detail_tutor", "detail@example.com"));
    let tutor_id = state.tutors[0].tutor_id;

    let create_response =
        new_course_handler(&mut state, course_input(&uuid_text(tutor_id), "Detailed Test Course"));
    assert_eq!(200, create_response.status);
    let course_id = state.courses[0].course_id;

    let response = get_course_details(&state, course_id);
    assert_eq!(200, response.status);
    assert!(response.body.contains(&format!("\"tutor_id\":\"{}\"", uuid_text(tutor_id))));
    assert!(response.body.contains(&format!("\"course_id\":\"{}\"", uuid_text(course_id))));
    assert!(response.body.contains("\"course_name\":\"Detailed Test Course\""));
    assert!(response.body.contains("\"posted_time\":\""));
}

#[test]
fn test_course_not_found() {
    let state = fresh_state();

    let non_existent = uuid::Uuid::new_v4();
    let response = get_course_details(&state, Id { value: non_existent.as_u128() });

    assert_eq!(404, response.status);
    assert!(response.body.contains(&format!("Course with ID {} not found", non_existent)));
    assert_eq!(format!("Course with ID {} not found", non_existent), response.body);
}

#[test]
fn test_get_tutor_id_by_details() {
    let mut state = fresh_state();

    let create_response =
        create_new_tutor(&mut state, tutor_input("lookup_tutor", "lookup@example.com"));
    assert_eq!(200, create_response.status);
    let expected_tutor_id = state.tutors[0].tutor_id;

    let lookup_response = get_tutor_id(&state, tutor_input("lookup_tutor", "lookup@example.com"));
    assert_eq!(200, lookup_response.status);
    assert_eq!(format!("\"{}\"", uuid_text(expected_tutor_id)), lookup_response.body);
    assert_eq!(create_response.body, lookup_response.body);
}

#[test]
fn health_counter_counts_each_visit() {
    let mut state = fresh_state();
    let first = health_check_handler(&mut state);
    let second = health_check_handler(&mut state);
    let third = health_check_handler(&mut state);
    assert_eq!("Tutor Services running fine 0 times", first.body);
    assert_eq!("Tutor Services running fine 1 times", second.body);
    assert_eq!("Tutor Services running fine 2 times", third.body);
    assert_eq!(3, state.visit_count);
}

#[test]
fn health_counter_renders_large_values() {
    let mut state = fresh_state();
    state.visit_count = 4294967294;
    let response = health_check_handler(&mut state);
    assert_eq!("Tutor Services running fine 4294967294 times", response.body);
    assert_eq!(4294967295, state.visit_count);
}

#[test]
fn create_tutor_requires_name_and_email() {
    let mut state = fresh_state();

    let no_name = create_new_tutor(
        &mut state,
        TutorInput { name: None, email: Some("a@x.com".to_string()) },
    );
    assert_eq!(400, no_name.status);
    assert_eq!("No tutor name provided", no_name.body);

    let no_email =
        create_new_tutor(&mut state, TutorInput { name: Some("Alice".to_string()), email: None });
    assert_eq!(400, no_email.status);
    assert_eq!("No tutor email provided", no_email.body);

    assert_eq!(0, state.tutors.len());
}

#[test]
fn tutor_lookup_requires_name_and_email() {
    let state = fresh_state();

    let no_name = get_tutor_id(&state, TutorInput { name: None, email: None });
    assert_eq!(400, no_name.status);
    assert_eq!("No name provided", no_name.body);

    let no_email = get_tutor_id(&state, TutorInput { name: Some("Alice".to_string()), email: None });
    assert_eq!(400, no_email.status);
    assert_eq!("No email provided", no_email.body);
}

#[test]
fn tutor_lookup_reports_unknown_pair() {
    let mut state = fresh_state();
    create_new_tutor(&mut state, tutor_input("Alice", "a@x.com"));

    let response = get_tutor_id(&state, tutor_input("Alice", "elsewhere@x.com"));
    assert_eq!(404, response.status);
    assert_eq!(
        "Tutor with name `Alice` and email `elsewhere@x.com` does not exist",
        response.body
    );
}

#[test]
fn tutor_lookup_first_match_wins() {
    let mut state = fresh_state();
    create_new_tutor(&mut state, tutor_input("Alice", "a@x.com"));
    create_new_tutor(&mut state, tutor_input("Alice", "a@x.com"));
    let first_id = state.tutors[0].tutor_id;

    let response = get_tutor_id(&state, tutor_input("Alice", "a@x.com"));
    assert_eq!(200, response.status);
    assert_eq!(format!("\"{}\"", uuid_text(first_id)), response.body);
}

#[test]
fn course_creation_requires_tutor_id() {
    let mut state = fresh_state();
    let response = new_course_handler(
        &mut state,
        CourseInput { tutor_id: None, course_name: Some("Maths".to_string()) },
    );
    assert_eq!(400, response.status);
    assert_eq!("No tutor_id provided", response.body);
    assert_eq!(0, state.courses.len());
}

#[test]
fn course_creation_rejects_malformed_tutor_id() {
    let mut state = fresh_state();
    let response = new_course_handler(&mut state, course_input("not-a-uuid", "Maths"));
    assert_eq!(400, response.status);
    assert_eq!("Invalid tutor_id format", response.body);
    assert_eq!(0, state.courses.len());
}

#[test]
fn course_creation_requires_course_name() {
    let mut state = fresh_state();
    create_new_tutor(&mut state, tutor_input("Alice", "a@x.com"));
    let tutor_id = state.tutors[0].tutor_id;

    let before = get_tutor_courses_handler(&state, tutor_id);

    let response = new_course_handler(
        &mut state,
        CourseInput { tutor_id: Some(uuid_text(tutor_id)), course_name: None },
    );
    assert_eq!(400, response.status);
    assert_eq!("No course_name provided", response.body);

    // No course was recorded: the listing is unchanged.
    let after = get_tutor_courses_handler(&state, tutor_id);
    assert_eq!(before.body, after.body);
    assert_eq!("[]", after.body);
    assert_eq!(0, state.courses.len());
}

#[test]
fn course_listing_filters_by_tutor_in_order() {
    let mut state = fresh_state();
    create_new_tutor(&mut state, tutor_input("Alice", "a@x.com"));
    create_new_tutor(&mut state, tutor_input("Bob", "b@x.com"));
    let alice = state.tutors[0].tutor_id;
    let bob = state.tutors[1].tutor_id;

    new_course_handler(&mut state, course_input(&uuid_text(alice), "Alice Course One"));
    new_course_handler(&mut state, course_input(&uuid_text(bob), "Bob Course"));
    new_course_handler(&mut state, course_input(&uuid_text(alice), "Alice Course Two"));

    let listing = get_tutor_courses_handler(&state, alice);
    assert_eq!(200, listing.status);
    assert!(listing.body.contains("Alice Course One"));
    assert!(listing.body.contains("Alice Course Two"));
    assert!(!listing.body.contains("Bob Course"));
    let one = listing.body.find("Alice Course One").unwrap();
    let two = listing.body.find("Alice Course Two").unwrap();
    assert!(one < two);
    assert_eq!(2, listing.body.matches("\"course_name\"").count());

    let bobs = get_tutor_courses_handler(&state, bob);
    assert!(bobs.body.contains("Bob Course"));
    assert_eq!(1, bobs.body.matches("\"course_name\"").count());

    let nobody = get_tutor_courses_handler(&state, Id { value: 7 });
    assert_eq!("[]", nobody.body);
}

#[test]
fn repeated_reads_return_identical_output() {
    let mut state = fresh_state();
    create_new_tutor(&mut state, tutor_input("Alice", "a@x.com"));
    let alice = state.tutors[0].tutor_id;
    new_course_handler(&mut state, course_input(&uuid_text(alice), "Maths"));
    let course_id = state.courses[0].course_id;

    let first = get_course_details(&state, course_id);
    let second = get_course_details(&state, course_id);
    assert_eq!(first.status, second.status);
    assert_eq!(first.body, second.body);

    let first_listing = get_tutor_courses_handler(&state, alice);
    let second_listing = get_tutor_courses_handler(&state, alice);
    assert_eq!(first_listing.body, second_listing.body);
}

#[test]
fn course_totals_increment_without_gaps() {
    let mut state = fresh_state();
    create_new_tutor(&mut state, tutor_input("Alice", "a@x.com"));
    let alice = state.tutors[0].tutor_id;

    let first = new_course_handler(&mut state, course_input(&uuid_text(alice), "One"));
    let second = new_course_handler(&mut state, course_input(&uuid_text(alice), "Two"));
    let third = new_course_handler(&mut state, course_input(&uuid_text(alice), "Three"));
    assert!(first.body.ends_with("total courses: 1"));
    assert!(second.body.ends_with("total courses: 2"));
    assert!(third.body.ends_with("total courses: 3"));
}

#[test]
fn tutor_round_trip_returns_same_identity() {
    let mut state = fresh_state();
    let created = create_new_tutor(&mut state, tutor_input("Alice", "a@x.com"));
    assert_eq!(200, created.status);

    let found = get_tutor_id(&state, tutor_input("Alice", "a@x.com"));
    assert_eq!(200, found.status);
    assert_eq!(created.body, found.body);
}

#[test]
fn course_names_are_json_escaped() {
    let mut state = fresh_state();
    create_new_tutor(&mut state, tutor_input("Alice", "a@x.com"));
    let alice = state.tutors[0].tutor_id;

    let name = "he said \"hi\" \\ twice\non two lines\u{1}";
    new_course_handler(&mut state, course_input(&uuid_text(alice), name));
    let course_id = state.courses[0].course_id;

    let response = get_course_details(&state, course_id);
    let expected = "\"course_name\":\"he said \\\"hi\\\" \\\\ twice\\non two lines\\u0001\"";
    assert!(response.body.contains(expected));
}

#[test]
fn posted_time_renders_the_stored_instant() {
    let mut state = fresh_state();
    let tutor_id = Id { value: 42 };
    let course = Course::new(
        tutor_id,
        "Maths".to_string(),
        Some(Timestamp { micros: 123456 }),
    );
    let course_id = course.course_id;
    state.courses.push(course);

    let expected_time = chrono::DateTime::from_timestamp_micros(123456)
        .unwrap()
        .naive_utc()
        .format("%Y-%m-%dT%H:%M:%S%.f")
        .to_string();
    let response = get_course_details(&state, course_id);
    assert!(response.body.contains(&format!("\"posted_time\":\"{}\"", expected_time)));

    let course_without_time = Course::new(tutor_id, "History".to_string(), None);
    let second_id = course_without_time.course_id;
    state.courses.push(course_without_time);
    let second = get_course_details(&state, second_id);
    assert!(second.body.contains("\"posted_time\":null"));
}

#[test]
fn update_posted_time_stamps_the_course() {
    let mut course = Course::new(Id { value: 9 }, "Maths".to_string(), None);
    assert!(course.posted_time.is_none());
    course.update_posted_time();
    assert!(course.posted_time.is_some());
    assert_eq!("Maths", course.course_name);
    assert_eq!(9, course.tutor_id.value);
}
