use gis_server::gis::{find_function, get_metadata, gis_call, ExecGis, Function, Metadata};
use gis_server::response::{Body, Status};

fn function(name: &str, inputs: usize, returns_obj: bool) -> Function {
    Function { name: name.to_string(), inputs, returns_obj, types: vec!["geometry".to_string()] }
}

fn metadata() -> Metadata {
    Metadata {
        types: vec!["geometry".to_string()],
        functions: vec![
            function("ST_Area", 1, false),
            function("ST_Union", 2, true),
            function("ST_Area", 2, true),
        ],
    }
}

fn call(name: &str, inputs: Vec<u128>) -> Result<String, Status> {
    match gis_call(&metadata(), &ExecGis { name: name.to_string(), inputs }) {
        Ok(q) => Ok(q.builder.sql().to_string()),
        Err(r) => Err(r.status),
    }
}

#[test]
fn scalar_function_call() {
    assert_eq!(
        call("ST_Area", vec![1]).unwrap(),
        "select ST_Area((select geo_data::geometry from locations where id = $1)) as result"
    );
}

#[test]
fn geometry_function_call() {
    assert_eq!(
        call("ST_Union", vec![1, 2]).unwrap(),
        "select ST_AsGeoJSON(ST_Union((select geo_data::geometry from locations where id = $1), \
         (select geo_data::geometry from locations where id = $2))) as result"
    );
}

#[test]
fn unknown_function_or_wrong_input_count_is_refused() {
    assert_eq!(call("ST_Buffer", vec![1]), Err(Status::BadRequest));
    assert_eq!(call("ST_Union", vec![1]), Err(Status::BadRequest));
    // the first function of a name is the one that counts
    assert_eq!(call("ST_Area", vec![1, 2]), Err(Status::BadRequest));
}

#[test]
fn first_function_of_a_name_is_found() {
    let m = metadata();
    assert_eq!(find_function(&m, &"ST_Area".to_string()), Some(0));
    assert_eq!(find_function(&m, &"ST_Union".to_string()), Some(1));
    assert_eq!(find_function(&m, &"nope".to_string()), None);
}

#[test]
fn metadata_answers() {
    assert_eq!(get_metadata(String::new()).status, Status::InternalServerError);
    let r = get_metadata("{\"types\":[]}".to_string());
    assert_eq!(r.status, Status::Success);
    assert!(matches!(r.body, Body::Metadata(ref m) if m == "{\"types\":[]}"));
}

#[test]
fn many_inputs_are_numbered_in_order() {
    let m = Metadata { types: vec![], functions: vec![function("f", 12, false)] };
    let q = gis_call(&m, &ExecGis { name: "f".to_string(), inputs: (0..12).collect() }).ok().unwrap();
    let text = q.builder.sql().to_string();
    assert!(text.contains("id = $10), (select"));
    assert!(text.ends_with("id = $12)) as result"));
}
