pub mod track;
pub mod voice;
pub mod yandex_music;
