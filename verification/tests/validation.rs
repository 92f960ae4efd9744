use cryptoserver::{validate, Error, Mode, Progress, SecretFile, Validation};

const KEYSPACE: u64 = 2_097_152;

#[test]
fn mode0_accepts_exactly_32_bytes() {
    assert_eq!(validate(Mode::Mode0, &[Some(32)]).map(|store| store.mode()), Ok(Mode::Mode0));
}

#[test]
fn mode0_rejects_31_bytes() {
    assert_eq!(validate(Mode::Mode0, &[Some(31)]).err(), Some(Error::BadSecretFileMode0));
}

#[test]
fn mode0_rejects_other_lengths_and_a_missing_file() {
    assert_eq!(validate(Mode::Mode0, &[Some(33)]).err(), Some(Error::BadSecretFileMode0));
    assert_eq!(validate(Mode::Mode0, &[Some(0)]).err(), Some(Error::BadSecretFileMode0));
    assert_eq!(validate(Mode::Mode0, &[Some(KEYSPACE)]).err(), Some(Error::BadSecretFileMode0));
    assert_eq!(validate(Mode::Mode0, &[None]).err(), Some(Error::BadSecretFileMode0));
    assert_eq!(validate(Mode::Mode0, &[]).err(), Some(Error::BadSecretFileMode0));
}

#[test]
fn mode16_wants_the_whole_keyspace() {
    assert_eq!(validate(Mode::Mode16, &[Some(KEYSPACE)]).map(|store| store.mode()), Ok(Mode::Mode16));
    assert_eq!(validate(Mode::Mode16, &[Some(KEYSPACE - 1)]).err(), Some(Error::BadSecretFileMode16));
    assert_eq!(validate(Mode::Mode16, &[Some(KEYSPACE + 1)]).err(), Some(Error::BadSecretFileMode16));
    assert_eq!(validate(Mode::Mode16, &[Some(32)]).err(), Some(Error::BadSecretFileMode16));
    assert_eq!(validate(Mode::Mode16, &[None]).err(), Some(Error::BadSecretFileMode16));
}

#[test]
fn mode32_wants_every_shard() {
    let mut found = vec![Some(KEYSPACE); 65536];
    assert_eq!(validate(Mode::Mode32, &found).map(|store| store.mode()), Ok(Mode::Mode32));
    found[0x1a2b] = Some(KEYSPACE - 32);
    assert_eq!(validate(Mode::Mode32, &found).err(), Some(Error::BadSecretFileMode32));
    found[0x1a2b] = None;
    assert_eq!(validate(Mode::Mode32, &found).err(), Some(Error::BadSecretFileMode32));
    found[0x1a2b] = Some(KEYSPACE);
    found[65535] = Some(32);
    assert_eq!(validate(Mode::Mode32, &found).err(), Some(Error::BadSecretFileMode32));
    found.pop();
    assert_eq!(validate(Mode::Mode32, &found).err(), Some(Error::BadSecretFileMode32));
    found.push(Some(KEYSPACE));
    assert_eq!(validate(Mode::Mode32, &found).map(|store| store.mode()), Ok(Mode::Mode32));
}

#[test]
fn entries_beyond_the_files_of_the_mode_are_not_looked_at() {
    assert_eq!(validate(Mode::Mode0, &[Some(32), None, Some(5)]).map(|store| store.mode()), Ok(Mode::Mode0));
    assert_eq!(validate(Mode::Mode16, &[Some(KEYSPACE), Some(1)]).map(|store| store.mode()), Ok(Mode::Mode16));
}

#[test]
fn validation_of_mode0_file_by_file() {
    let validation = Validation::start(Mode::Mode0);
    assert_eq!(validation.position(), 0);
    assert_eq!(validation.awaited(), SecretFile::Single);
    assert_eq!(validation.awaited().file_name(), "secret");
    assert!(matches!(validation.observe(Some(32)), Progress::Accepted(store) if store.mode() == Mode::Mode0));
    let validation = Validation::start(Mode::Mode0);
    assert!(matches!(validation.observe(Some(31)), Progress::Rejected(Error::BadSecretFileMode0)));
    let validation = Validation::start(Mode::Mode0);
    assert!(matches!(validation.observe(None), Progress::Rejected(Error::BadSecretFileMode0)));
}

#[test]
fn validation_of_mode16_file_by_file() {
    let validation = Validation::start(Mode::Mode16);
    assert_eq!(validation.awaited().file_name(), "0000");
    assert!(matches!(validation.observe(Some(KEYSPACE)), Progress::Accepted(store) if store.mode() == Mode::Mode16));
    let validation = Validation::start(Mode::Mode16);
    assert!(matches!(validation.observe(Some(32)), Progress::Rejected(Error::BadSecretFileMode16)));
}

#[test]
fn validation_of_mode32_visits_the_shards_in_order() {
    let mut validation = Validation::start(Mode::Mode32);
    let mut visited: u32 = 0;
    loop {
        assert_eq!(validation.position(), visited);
        assert_eq!(validation.awaited(), SecretFile::Shard(visited as u16));
        assert_eq!(validation.awaited().file_name(), format!("{:04x}", visited));
        visited += 1;
        match validation.observe(Some(KEYSPACE)) {
            Progress::Continue(next) => validation = next,
            Progress::Accepted(store) => {
                assert_eq!(store.mode(), Mode::Mode32);
                break;
            }
            Progress::Rejected(error) => panic!("rejected with {:?}", error),
        }
    }
    assert_eq!(visited, 65536);
}

#[test]
fn validation_of_mode32_stops_at_the_first_bad_shard() {
    let mut validation = Validation::start(Mode::Mode32);
    for _ in 0..3 {
        match validation.observe(Some(KEYSPACE)) {
            Progress::Continue(next) => validation = next,
            _ => panic!("the first shards fit"),
        }
    }
    assert_eq!(validation.awaited().file_name(), "0003");
    assert!(matches!(validation.observe(Some(KEYSPACE + 1)), Progress::Rejected(Error::BadSecretFileMode32)));
}

#[test]
fn error_of_each_mode() {
    assert_eq!(cryptoserver::store::error_of(Mode::Mode0), Error::BadSecretFileMode0);
    assert_eq!(cryptoserver::store::error_of(Mode::Mode16), Error::BadSecretFileMode16);
    assert_eq!(cryptoserver::store::error_of(Mode::Mode32), Error::BadSecretFileMode32);
}

#[test]
fn errors_are_named() {
    assert_eq!(Error::BadSecretFileMode0.to_string(), "BadSecretFileMode0");
    assert_eq!(Error::BadSecretFileMode16.to_string(), "BadSecretFileMode16");
    assert_eq!(Error::BadSecretFileMode32.to_string(), "BadSecretFileMode32");
    assert_eq!(format!("{:?}", Error::BadSecretFileMode32), "BadSecretFileMode32");
}
