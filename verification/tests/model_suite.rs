use mdevents::model::EventModel;
use regex::Regex;

#[test]
fn default_cons() {
    let _em = EventModel {
        ..Default::default()
    };
}

#[test]
fn test_new() {
    let _em = EventModel::new(
        "15 Feb 2023".to_string(),
        None,
        None,
        None,
        None,
        "Test Title".to_string(),
    );
}

#[test]
fn test_with_date() {
    let em = EventModel::with_date("15 Feb 2023".to_owned());
    assert!(em.is_ok());
}

#[test]
fn test_parse_date() {
    let bruh = EventModel::base_parse_date("3 Nov 2023");
    assert!(bruh.is_ok());
}

#[test]
fn test_parse_time() {
    let _bruh = EventModel::base_parse_time("6:00 PM");
}

#[test]
fn test_parse_time_tup() {
    let time_str_vec = vec![
        "6:00 AM",
        "6 PM",
        "6:00-7:00 AM",
        "6:00AM-7:00 AM",
        "6:00AM-7:00PM",
        "6-7:00 PM",
        "6:30-7:00 AM",
        "6-7 AM",
        "6PM-7 AM",
    ];

    let mut time_struct_vec = vec![];
    for time_str in time_str_vec {
        let temp = EventModel::parse_time_tup(time_str);
        assert!(temp.is_ok());
        time_struct_vec.push(temp);
    }
}

#[test]
fn test_parse_date_tup() {
    let date_str_vec = vec![
        "24-25 Feb",
        "24-25 Feb 23",
        "24-25 Feb 2023",
        "24-25 Feb2023",
        "24-25Feb2023",
        "24Jan-25Feb2023",
        "24Jan - 25Feb2023",
        "24 Jan - 25 Feb 2023",
        "25 Feb 2023",
        "25Feb2023",
        "25Feb",
        "25Feb23",
        "25Feb 23",
    ];

    let mut date_struct_vec = vec![];
    for date_str in date_str_vec {
        let temp = EventModel::parse_date_tup(date_str);
        assert!(temp.is_ok());
        date_struct_vec.push(temp);
    }
}

#[test]
fn test_time_regex_arr() {
    let time_reg_arr: [Regex; 3] = [
        Regex::new(r"^\d{1,2}:\d\d [A,P]M").unwrap(),
        Regex::new(r"^\d{1,2} [A,P]M").unwrap(),
        Regex::new(r"^\d{1,2}(:\d\d)?-\d{1,2}(:\d\d)? [A,P]M").unwrap(),
    ];
    let time1: String = "6:00 AM".to_owned();
    let time2: String = "6 PM".to_owned();
    let time3: String = "6:00-7:00 AM".to_owned();
    let time4: String = "6-7 AM".to_owned();

    let mut time1_results = Vec::new();
    for reg in &time_reg_arr {
        time1_results.push(reg.captures(&time1));
    }
    assert!(time1_results.iter().any(|o| o.is_some()));

    let mut time2_results = Vec::new();
    for reg in &time_reg_arr {
        time2_results.push(reg.captures(&time2));
    }
    assert!(time2_results.iter().any(|o| o.is_some()));

    let mut time3_results = Vec::new();
    for reg in &time_reg_arr {
        time3_results.push(reg.captures(&time3));
    }
    assert!(time3_results.iter().any(|o| o.is_some()));

    let mut time4_results = Vec::new();
    for reg in &time_reg_arr {
        time4_results.push(reg.captures(&time4));
    }
    assert!(time4_results.iter().any(|o| o.is_some()));
}

#[test]
fn test_extract_line() {
    let linestr = r"- [ ] (21 Nov) (5:30PM-10PM) (713 Music Hall, Houston) Pierce the Veil & Dayseeker";
    let expect_datestr = "21 Nov";
    let expect_timestr = "5:30PM-10PM";
    let expect_placestr = "713 Music Hall, Houston";
    let expect_titlestr = "Pierce the Veil & Dayseeker";

    let tup = EventModel::extract_from_line(linestr);
    assert!(tup.is_ok());
    let tup = tup.unwrap();
    assert!(tup.0 == expect_datestr);
    assert!(tup.1 == expect_timestr);
    assert!(tup.2 == expect_placestr);
    assert!(tup.3 == expect_titlestr);
}

#[test]
fn test_from_line() {
    let line_vec = vec![
        r"- [ ] (24-25 Feb 24) () () Excision",
        r"- [ ] (15 Feb 2024) (6-10PM) (White Oak Music Hall, Houston) The Plot in You & Beartooth",
        r"- [ ] (19 Nov) (7-10PM) (Acadia Bar & Grill, Houston) Trapt",
        r"- [ ] (21 Nov) (5:30PM-10PM) (713 Music Hall, Houston) Pierce the Veil & Dayseeker",
        r"- [ ] (7 Nov) (6PM-10PM) (House of Blues, Houston) Of Mice & Men and Bullet for My Valentine",
        r"- [ ] (30 Oct) (6PM-10PM) (White Oak Music Hall, Houston) Currents & Polaris",
        r"- [ ] (21 Oct) (6PM-10PM) (The Secret Group, Houston) Iamjakehill",
        r"- [ ] (28-29 Oct) () (Austin) Freaky Deaky '23 ",
        r"- [ ] (20 Oct) () () Drowning Pool & Adelitas Way",
        r"- [ ] (2 Nov) () (Houston) Polyphia",
    ];
    for line in line_vec {
        let temp = EventModel::from_line(line.to_string());
        assert!(temp.is_ok());
    }
}
