use rs_es::location::Location;
use rs_es::structured::StructuredValue;

fn coordinates(lat: f64, lon: f64) -> Location {
    Location::from_coordinate_bits(lat.to_bits(), lon.to_bits())
}

#[test]
fn coordinate_pair_renders_as_object() {
    let v = coordinates(40.7128, -74.0060).to_structured_value();
    assert_eq!(
        StructuredValue::Object(vec![
            ("lat".to_string(), StructuredValue::Float(40.7128f64.to_bits())),
            ("lon".to_string(), StructuredValue::Float((-74.006f64).to_bits())),
        ]),
        v
    );
    match v {
        StructuredValue::Object(entries) => {
            assert_eq!(2, entries.len());
            match entries[1].1 {
                StructuredValue::Float(b) => assert_eq!(-74.006, f64::from_bits(b)),
                _ => panic!("longitude is not a number"),
            }
        }
        _ => panic!("not an object"),
    }
}

#[test]
fn geohash_renders_as_string() {
    let l = Location::from("u4pruydqqvj".to_string());
    assert_eq!(Location::GeoHash("u4pruydqqvj".to_string()), l);
    assert_eq!(
        StructuredValue::Text("u4pruydqqvj".to_string()),
        l.to_structured_value()
    );
}

#[test]
fn empty_geohash_stays_a_string() {
    let l = Location::from(String::new());
    assert_eq!(StructuredValue::Text(String::new()), l.to_structured_value());
}

#[test]
fn location_rendering_repeats() {
    let l = coordinates(1.5, -2.25);
    assert_eq!(l.to_structured_value(), l.to_structured_value());
    let g = Location::from("9q8yy".to_string());
    assert_eq!(g.to_structured_value(), g.to_structured_value());
}

#[test]
fn variants_keep_their_shapes() {
    let g = Location::from("40.7128".to_string());
    assert!(matches!(g.to_structured_value(), StructuredValue::Text(_)));
    let c = coordinates(0.0, 0.0);
    assert!(matches!(c.to_structured_value(), StructuredValue::Object(_)));
}
