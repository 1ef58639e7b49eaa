use mappers::gray_scale::MinMaxScale;

#[test]
fn it_works() {
}

#[test]
fn lib_it_works() {
    let _ = MinMaxScale::new();
}
