use epitech_api::handshake::LoginReply;
use epitech_api::request::{Attempt, Request, Step};
use epitech_api::response::{UserEntries, UserEntry};
use epitech_api::student_list::ListingStep;
use epitech_api::{Client, Error, Location, Promo};

fn setup_client() -> Result<Client, Error> {
    let session = Client::builder()
        .autologin("https://intra.epitech.eu/auth-0123456789abcdef")
        .authenticate()
        .receive(LoginReply::Headers(vec![Some(String::from(
            "user=eyJ0eXAiOiJKV1QifQ; expires=Thu, 01-Jan-2099 00:00:00 GMT; path=/",
        ))]))?;
    let client = session.open(true)?;
    let profile = answer(client.fetch_student_data().send(), "{\"login\":\"me@epitech.eu\"}");
    client.identify(profile.map(|_| String::from("me@epitech.eu")))
}

fn answer(request: Request, body: &str) -> Result<String, Error> {
    match request.start() {
        Step::Done(result) => result,
        Step::Get => match request.next(Attempt::Body(String::from(body))).1 {
            Step::Done(result) => result,
            Step::Get => panic!("a body ends the request"),
        },
    }
}

fn entry(login: &str, location: Location) -> UserEntry {
    UserEntry {
        title: String::from(login),
        login: String::from(login),
        nom: String::from("Nom"),
        prenom: String::from("Prenom"),
        picture: None,
        location,
    }
}

#[test]
fn auth_unreachable_remote() {
    let client = Client::builder().autologin("toto").authenticate().receive(LoginReply::Failed(None));
    assert!(client.is_err());
    assert_eq!(client.unwrap_err(), Error::UnreachableRemote);
}

#[test]
fn auth_working_link() {
    let client = setup_client();
    assert!(client.is_ok());
    assert_eq!(client.unwrap().login, "me@epitech.eu");
}

#[test]
fn fetch_student_list() {
    let client = setup_client();
    assert!(client.is_ok());
    let client = client.unwrap();
    let listing = client
        .fetch_student_list()
        .location(Location::Strasbourg)
        .promo(Promo::Tek2)
        .year(2020)
        .send();
    assert_eq!(
        listing.request().url,
        "https://intra.epitech.eu/user/filter/user?offset=0&year=2020&active=true&location=FR/STG&promo=tek2&format=json"
    );
    let page = UserEntries { total: 1, items: vec![entry("a@epitech.eu", Location::Strasbourg)] };
    let list = match listing.absorb(page) {
        ListingStep::Done(list) => list,
        ListingStep::Fetch(_) => panic!("the page is the whole listing"),
    };
    assert!(list.is_ok());
}

#[test]
fn fetch_city_list() {
    let client = setup_client();
    assert!(client.is_ok());
    let client = client.unwrap();
    let request = client.make_request("/user/filter/location?active=true");
    assert_eq!(
        request.url,
        "https://intra.epitech.eu/user/filter/location?active=true&format=json"
    );
    let list = answer(request, "[{\"code\":\"FR/STG\",\"title\":\"Strasbourg\",\"students\":\"1\"}]");
    assert!(list.is_ok());
    let list = list.unwrap();
    assert!(list.as_str().contains("FR/STG"));
}

#[test]
fn fetch_wac_student_list() {
    let client = setup_client();
    assert!(client.is_ok());
    let client = client.unwrap();
    let listing = client
        .fetch_student_list()
        .location(Location::Strasbourg)
        .promo(Promo::Wac1)
        .year(2018)
        .send();
    assert_eq!(
        listing.request().url,
        "https://intra.epitech.eu/user/filter/user?offset=0&year=2018&active=true&location=FR/STG&promo=wac1&format=json"
    );
    let list = match listing.absorb(UserEntries { total: 0, items: Vec::new() }) {
        ListingStep::Done(list) => list,
        ListingStep::Fetch(_) => panic!("the page is the whole listing"),
    };
    assert!(list.is_ok());
}

#[test]
fn fetch_all_students_list() {
    let client = setup_client();
    assert!(client.is_ok());
    let client = client.unwrap();
    let promos = [
        Promo::Tek1,
        Promo::Tek2,
        Promo::Tek3,
        Promo::Wac1,
        Promo::Wac2,
        Promo::Msc3,
        Promo::Msc4,
    ];
    let locations = [Location::Barcelone, Location::Paris, Location::Strasbourg, Location::Bruxelles];
    let mut list = Vec::default();
    for promo in promos {
        for location in locations {
            println!("{} {}", promo.code(), location.code());
            let listing =
                client.fetch_student_list().location(location).promo(promo).year(2019).send();
            let page = UserEntries { total: 1, items: vec![entry(promo.code(), location)] };
            let students = match listing.absorb(page) {
                ListingStep::Done(students) => students,
                ListingStep::Fetch(_) => panic!("the page is the whole listing"),
            };
            if let Ok(mut students) = students {
                list.append(&mut students);
            }
        }
    }
    assert!(!list.is_empty());
    assert_eq!(list.len(), 28);
}

#[test]
fn fetch_own_student_data() {
    let client = setup_client();
    assert!(client.is_ok());
    let client = client.unwrap();
    let request = client.fetch_student_data().send();
    assert_eq!(request.url, "https://intra.epitech.eu/user?format=json");
    let list = answer(request, "{}");
    assert!(list.is_ok());
}

#[test]
fn fetch_other_student_data() {
    let client = setup_client();
    assert!(client.is_ok());
    let client = client.unwrap();
    let request = client.fetch_student_data().login("nicolas.polomack@epitech.eu").send();
    assert_eq!(request.url, "https://intra.epitech.eu/user/nicolas.polomack@epitech.eu?format=json");
    let list = answer(request, "{}");
    assert!(list.is_ok());
}

#[test]
fn fetch_own_student_netsoul() {
    let client = setup_client().unwrap();
    assert_eq!(
        client.fetch_own_student_netsoul().url,
        "https://intra.epitech.eu/user/me@epitech.eu/netsoul?format=json"
    );
    assert_eq!(
        client.fetch_own_student_notes().url,
        "https://intra.epitech.eu/user/me@epitech.eu/notes?format=json"
    );
    assert_eq!(
        client.fetch_own_student_binomes().url,
        "https://intra.epitech.eu/user/me@epitech.eu/binome?format=json"
    );
}

#[test]
fn fetch_other_student_netsoul() {
    let client = setup_client();
    assert!(client.is_ok());
    let client = client.unwrap();
    let request = client.fetch_student_netsoul("nicolas.polomack@epitech.eu");
    assert_eq!(
        request.url,
        "https://intra.epitech.eu/user/nicolas.polomack@epitech.eu/netsoul?format=json"
    );
    let list = answer(request, "[]");
    assert!(list.is_ok());
}

#[test]
fn fetch_other_student_notes() {
    let client = setup_client();
    assert!(client.is_ok());
    let client = client.unwrap();
    let request = client.fetch_student_notes("nicolas.polomack@epitech.eu");
    assert_eq!(
        request.url,
        "https://intra.epitech.eu/user/nicolas.polomack@epitech.eu/notes?format=json"
    );
    let list = answer(request, "{}");
    assert!(list.is_ok());
}

#[test]
fn fetch_other_student_binomes() {
    let client = setup_client();
    assert!(client.is_ok());
    let client = client.unwrap();
    let request = client.fetch_student_binomes("nicolas.polomack@epitech.eu");
    assert_eq!(
        request.url,
        "https://intra.epitech.eu/user/nicolas.polomack@epitech.eu/binome?format=json"
    );
    let list = answer(request, "{}");
    assert!(list.is_ok());
}

#[test]
fn search_student() {
    let client = setup_client();
    assert!(client.is_ok());
    let client = client.unwrap();
    let request = client.search_student("nicolas.poloma");
    assert_eq!(
        request.url,
        "https://intra.epitech.eu/complete/user?format=json&contains&search=nicolas.poloma"
    );
    let result = answer(request, "[]");
    assert!(result.is_ok());
    println!("{:?}", result.unwrap());
}

#[test]
fn fetch_available_courses() {
    let client = setup_client();
    assert!(client.is_ok());
    let client = client.unwrap();
    let request = client.fetch_available_courses(Location::Strasbourg, 2018, true);
    assert_eq!(
        request.url,
        "https://intra.epitech.eu/user/filter/course?format=json&location=FR/STG&year=2018&active=true"
    );
    let list = answer(request, "[]");
    assert!(list.is_ok());
}

#[test]
fn fetch_available_promos() {
    let client = setup_client().unwrap();
    let request =
        client.fetch_available_promos(Location::Lyon, 2017, "bachelor/classic", false);
    assert_eq!(
        request.url,
        "https://intra.epitech.eu/user/filter/promo?format=json&location=FR/LYN&year=2017&course=bachelor/classic&active=false"
    );
    assert_eq!(request.remaining, 5);
}

#[test]
fn client_without_session() {
    let client = Client::default();
    assert_eq!(client.autologin, "");
    assert_eq!(client.cookie, "");
    assert_eq!(client.login, "");
    assert_eq!(client.retry_count, 5);
    let copy = client.clone();
    assert_eq!(copy.retry_count, 5);
    assert_eq!(copy.login, "");
}

#[test]
fn copy_of_a_client_holds_the_same_session() {
    let client = setup_client().unwrap();
    let copy = client.clone();
    assert_eq!(copy.autologin, client.autologin);
    assert_eq!(copy.cookie, client.cookie);
    assert_eq!(copy.login, client.login);
    assert_eq!(copy.retry_count, client.retry_count);
    let builder = client.fetch_student_data();
    assert_eq!(builder.client.cookie, client.cookie);
    assert!(builder.login.is_none());
}
