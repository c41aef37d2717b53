use encryption::panel::{decrypted_file_path, encrypted_file_path, WindowMsg};
use encryption::params::{Argon2Params, ParamsError};
use encryption::trailer::{
    find_identifier_position, split_trailer, EncryptionAlgorithm, File, FileError, IDENTIFIER,
};

#[test]
fn identifier_is_its_text() {
    assert_eq!(&IDENTIFIER, b"nCrypt_Params");
}

#[test]
fn finds_the_last_of_several_places() {
    assert_eq!(find_identifier_position(b"abcabcabc", b"abc"), Some(6));
    assert_eq!(find_identifier_position(b"abcabcab", b"abc"), Some(3));
    assert_eq!(find_identifier_position(b"aaaa", b"aa"), Some(2));
    assert_eq!(find_identifier_position(b"abc", b"abc"), Some(0));
    assert_eq!(find_identifier_position(b"xabc", b"a"), Some(1));
}

#[test]
fn finds_nothing_where_there_is_no_place() {
    assert_eq!(find_identifier_position(b"", b"a"), None);
    assert_eq!(find_identifier_position(b"ab", b"abc"), None);
    assert_eq!(find_identifier_position(b"abdabd", b"abc"), None);
}

#[test]
fn trailer_is_split_at_the_last_identifier() {
    let file = b"cipher-nCrypt_Params-text nCrypt_Params{\"m_cost\":1}";
    let (data, params) = split_trailer(file).unwrap();
    assert_eq!(data, b"cipher-nCrypt_Params-text ");
    assert_eq!(params, b"{\"m_cost\":1}");
    assert_eq!(split_trailer(b"nCrypt_Params"), Some((&b""[..], &b""[..])));
    assert_eq!(split_trailer(b"no trailer here"), None);
    assert_eq!(split_trailer(b"nCrypt_Param"), None);
}

#[test]
fn algorithm_names_are_read_back() {
    assert_eq!(EncryptionAlgorithm::XChaCha20Poly1305.algorithm(), "XChaCha20Poly1305");
    assert_eq!(EncryptionAlgorithm::Aes256Gcm.algorithm(), "Aes256Gcm");
    assert_eq!(
        EncryptionAlgorithm::from_name("XChaCha20Poly1305"),
        EncryptionAlgorithm::XChaCha20Poly1305
    );
    assert_eq!(EncryptionAlgorithm::from_name("Aes256Gcm"), EncryptionAlgorithm::Aes256Gcm);
    assert_eq!(EncryptionAlgorithm::from_name("anything"), EncryptionAlgorithm::Aes256Gcm);
    assert_eq!(EncryptionAlgorithm::from_name(""), EncryptionAlgorithm::Aes256Gcm);
    assert_eq!(EncryptionAlgorithm::default(), EncryptionAlgorithm::Aes256Gcm);
}

#[test]
fn file_of_a_path_has_name_and_extension() {
    let file = File::new("dir/report.final.txt".to_string()).unwrap();
    assert_eq!(file.path, "dir/report.final.txt");
    assert_eq!(file.name, "report.final.txt");
    assert_eq!(file.extension, "txt");
}

#[test]
fn file_needs_a_name_and_an_extension() {
    assert_eq!(File::new("..".to_string()).err(), Some(FileError::NoFileName));
    assert_eq!(File::new("".to_string()).err(), Some(FileError::NoFileName));
    assert_eq!(File::new("dir/readme".to_string()).err(), Some(FileError::NoExtension));
    assert_eq!(
        File::from_parts("p".to_string(), None, Some("txt".to_string())).err(),
        Some(FileError::NoFileName)
    );
    assert_eq!(File::from_parts("p".to_string(), None, None).err(), Some(FileError::NoFileName));
    assert_eq!(
        File::from_parts("p".to_string(), Some("n".to_string()), None).err(),
        Some(FileError::NoExtension)
    );
    let file =
        File::from_parts("p".to_string(), Some("n.e".to_string()), Some("e".to_string())).unwrap();
    assert_eq!((file.path.as_str(), file.name.as_str(), file.extension.as_str()), ("p", "n.e", "e"));
}

#[test]
fn encrypted_and_decrypted_names() {
    let file = File::new("notes.txt".to_string()).unwrap();
    assert_eq!(file.name_encrypted(), "notes.txt_encrypted.nc");
    assert_eq!(file.name_decrypted(), "notes.txt");
    let file = File::new("notes.txt_encrypted.nc".to_string()).unwrap();
    assert_eq!(file.name_decrypted(), "notes.txt");
    let file = File::new("a_encrypted.ncb_encrypted.nc".to_string()).unwrap();
    assert_eq!(file.name_decrypted(), "ab");
    let file = File::default();
    assert_eq!(file.name_encrypted(), "_encrypted.nc");
}

#[test]
fn is_encrypted_looks_for_the_identifier() {
    let file = File::default();
    assert!(file.is_encrypted(b"data nCrypt_Params{}"));
    assert!(file.is_encrypted(b"nCrypt_Params"));
    assert!(!file.is_encrypted(b"data nCrypt_Param"));
    assert!(!file.is_encrypted(b""));
}

#[test]
fn container_paths() {
    assert_eq!(encrypted_file_path("dir/a.txt"), "dir/a.txt.ncrypt");
    assert_eq!(decrypted_file_path("dir/a.txt.ncrypt"), "dir/a.txt");
    assert_eq!(decrypted_file_path("dir/a.txt"), "dir/a.txt");
    assert_eq!(decrypted_file_path("a.ncrypt.b.ncrypt"), "a.b");
    assert_eq!(decrypted_file_path(&encrypted_file_path("x")), "x");
}

#[test]
fn message_window_states() {
    let mut window = WindowMsg::default();
    assert!(!window.open);
    assert_eq!((window.title.as_str(), window.message.as_str()), ("", ""));
    window.progress("Encrypting...");
    assert!(window.open);
    assert_eq!((window.title.as_str(), window.message.as_str()), ("", "Encrypting..."));
    window.report("Success", "done");
    assert!(window.open);
    assert_eq!((window.title.as_str(), window.message.as_str()), ("Success", "done"));
    window.progress("Decrypting...");
    assert_eq!((window.title.as_str(), window.message.as_str()), ("Success", "Decrypting..."));
    window.dismiss();
    assert!(!window.open);
    assert_eq!((window.title.as_str(), window.message.as_str()), ("Success", "Decrypting..."));
}

#[test]
fn parameters_are_read_from_a_hasher() {
    let params = argon2::Params::new(1024, 3, 2, Some(48)).unwrap();
    let hasher =
        argon2::Argon2::new(argon2::Algorithm::default(), argon2::Version::default(), params);
    let read = Argon2Params::from_argon2(hasher).unwrap();
    assert_eq!((read.m_cost, read.t_cost, read.p_cost, read.hash_length), (1024, 3, 2, 48));

    let params = argon2::Params::new(1024, 3, 2, None).unwrap();
    let hasher =
        argon2::Argon2::new(argon2::Algorithm::default(), argon2::Version::default(), params);
    assert_eq!(Argon2Params::from_argon2(hasher).err(), Some(ParamsError::MissingOutputLength));
}

#[test]
fn parameters_of_readings() {
    let made = Argon2Params::from_readings(1, 2, 3, Some(4)).unwrap();
    assert_eq!((made.m_cost, made.t_cost, made.p_cost, made.hash_length), (1, 2, 3, 4));
    assert_eq!(
        Argon2Params::from_readings(1, 2, 3, None).err(),
        Some(ParamsError::MissingOutputLength)
    );
}
