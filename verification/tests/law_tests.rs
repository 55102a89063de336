use dorisctl::describe::first_equal;
use dorisctl::http::base64_encode;
use dorisctl::output::with_row_count;
use dorisctl::postgres::{doris_to_pg_type, pg_type_of_upper};
use dorisctl::query::is_read_statement;
use dorisctl::spark::{doris_to_spark_type, spark_type_of_upper};

#[test]
fn type_parameters_do_not_change_the_mapping() {
    for (plain, with_params) in [("DECIMAL", "DECIMAL(27, 9)"), ("  varchar ", "  varchar (255)"), ("int", "int(11)")] {
        assert_eq!(doris_to_spark_type(plain), doris_to_spark_type(with_params));
        assert_eq!(doris_to_pg_type(plain), doris_to_pg_type(with_params));
    }
    assert_eq!(spark_type_of_upper(" DATETIMEV2(6) "), "TimestampType");
    assert_eq!(spark_type_of_upper("datetime"), "StringType");
    assert_eq!(pg_type_of_upper("LARGEINT(40)"), "NUMERIC(38,0)");
}

#[test]
fn read_detection_ignores_case() {
    for sql in ["select 1", "  ShOw tables", "with x as (select 1) select 1", "update t set a = 1", "exPlain x"] {
        assert_eq!(is_read_statement(sql), is_read_statement(&sql.to_ascii_uppercase()));
    }
}

#[test]
fn first_equal_finds_the_first() {
    let v: Vec<String> = vec!["a".into(), "b".into(), "b".into()];
    assert_eq!(first_equal(&v, "b"), Some(1));
    assert_eq!(first_equal(&v, "c"), None);
}

#[test]
fn row_count_follows_table() {
    assert_eq!(with_row_count("T".to_string(), 2), "T\n2 row(s)\n");
}

#[test]
fn type_mapping_ignores_case_spacing_and_parameters() {
    let names = ["TINYINT", "Int", "bigint", "LargeInt", "decimal", "DateTimeV2", "jsonb", "varchar", "map", "unknown", "INT("];
    for s in names {
        let spark = doris_to_spark_type(s);
        let pg = doris_to_pg_type(s);
        for v in [s.to_lowercase(), s.to_uppercase(), format!("  {} ", s), format!("\t{}\n", s), format!("{}(10, 2)", s), format!("{}(", s)] {
            assert_eq!(doris_to_spark_type(&v), spark, "{:?}", v);
            assert_eq!(doris_to_pg_type(&v), pg, "{:?}", v);
        }
    }
}

const ALPHABET: &str = "ABCDEFGHIJKLMNOPQRSTUVWXYZabcdefghijklmnopqrstuvwxyz0123456789+/";

fn decode(s: &str) -> Vec<u8> {
    let idx = |c: char| ALPHABET.find(c).map(|i| i as u32).unwrap_or(0);
    let chars: Vec<char> = s.chars().collect();
    let mut out = Vec::new();
    for g in chars.chunks(4) {
        let v: Vec<u32> = g.iter().map(|&c| idx(c)).collect();
        out.push(((v[0] << 2) | (v[1] >> 4)) as u8);
        if g[2] != '=' {
            out.push((((v[1] & 15) << 4) | (v[2] >> 2)) as u8);
        }
        if g[3] != '=' {
            out.push((((v[2] & 3) << 6) | v[3]) as u8);
        }
    }
    out
}

#[test]
fn base64_alphabet_padding_and_round_trip() {
    for n in 0..40usize {
        let input: Vec<u8> = (0..n).map(|i| (i * 97 + 13) as u8 ^ 0xA5).collect();
        let out = base64_encode(&input);
        let pad = (3 - n % 3) % 3;
        let body = &out[..out.len() - pad];
        assert!(body.chars().all(|c| ALPHABET.contains(c)), "{}", out);
        assert!(out[out.len() - pad..].chars().all(|c| c == '='), "{}", out);
        assert_eq!(decode(&out), input);
    }
    assert_eq!(decode(&base64_encode(&[0xff, 0xfe, 0xfd, 0x00])), vec![0xff, 0xfe, 0xfd, 0x00]);
}
