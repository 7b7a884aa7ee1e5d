use paddle_inference::config::model::Model;
use paddle_inference::config::Config;
use paddle_inference::predictor::{RunError, State};
use paddle_inference::tensor::Side;
use paddle_inference::{Predictor, Tensor};

fn ready(ptr: usize) -> Predictor {
    Predictor::from_ptr(
        ptr,
        vec!["image".to_string(), "im_shape".to_string()],
        vec!["boxes".to_string()],
    )
}

#[test]
fn a_new_predictor_is_being_configured() {
    let model = Model::Memory { model_buffer: vec![], params_buffer: vec![] };
    let predictor = Predictor::new(Config::new(model)).unwrap();
    assert_eq!(predictor.state(), State::Configuring);
    assert_eq!(predictor.config_calls().len(), 4);
}

#[test]
fn created_gives_up_the_configuration() {
    let model = Model::Memory { model_buffer: vec![], params_buffer: vec![] };
    let predictor = Predictor::new(Config::new(model)).unwrap();
    let predictor = predictor.created(0x7f00, vec!["x".to_string()], vec!["y".to_string()]);
    assert_eq!(predictor.state(), State::Ready);
    assert!(predictor.config_calls().is_empty());
    assert_eq!(predictor.input_names(), vec!["x".to_string()]);
    assert_eq!(predictor.output_names(), vec!["y".to_string()]);
    assert_eq!(predictor.input("x").predictor, 0x7f00);
}

#[test]
fn from_ptr_is_ready() {
    let predictor = ready(42);
    assert_eq!(predictor.state(), State::Ready);
    assert!(predictor.config_calls().is_empty());
}

#[test]
fn names_and_numbers() {
    let predictor = ready(42);
    assert_eq!(predictor.input_names(), vec!["image".to_string(), "im_shape".to_string()]);
    assert_eq!(predictor.input_num(), 2);
    assert_eq!(predictor.output_names(), vec!["boxes".to_string()]);
    assert_eq!(predictor.output_num(), 1);
    let none = Predictor::from_ptr(1, vec![], vec![]);
    assert_eq!(none.input_num(), 0);
    assert_eq!(none.output_names(), Vec::<String>::new());
}

#[test]
fn the_name_list_is_the_callers() {
    let predictor = ready(42);
    let mut names = predictor.input_names();
    names.clear();
    assert_eq!(predictor.input_num(), 2);
    assert_eq!(predictor.input_names().len(), 2);
}

#[test]
fn input_view() {
    let predictor = ready(42);
    assert_eq!(
        predictor.input("image"),
        Tensor { predictor: 42, side: Side::Input, name: b"image\0".to_vec() }
    );
}

#[test]
fn output_view() {
    let predictor = ready(42);
    assert_eq!(
        predictor.output("boxes"),
        Tensor { predictor: 42, side: Side::Output, name: b"boxes\0".to_vec() }
    );
}

#[test]
fn looking_up_twice_gives_the_same_view() {
    let predictor = ready(42);
    assert_eq!(predictor.input("image"), predictor.input("image"));
    assert_eq!(predictor.output("boxes"), predictor.output("boxes"));
    assert_ne!(predictor.input("image"), predictor.input("im_shape"));
    assert_ne!(predictor.input("boxes"), predictor.output("boxes"));
}

#[test]
fn has_input_and_has_output() {
    let predictor = ready(42);
    assert!(predictor.has_input("image"));
    assert!(predictor.has_input("im_shape"));
    assert!(!predictor.has_input("boxes"));
    assert!(!predictor.has_input("imag"));
    assert!(!predictor.has_input("image "));
    assert!(!predictor.has_input(""));
    assert!(predictor.has_output("boxes"));
    assert!(!predictor.has_output("image"));
}

#[test]
fn a_name_is_read_up_to_its_first_zero_byte() {
    let predictor = ready(42);
    assert!(predictor.has_input("image\0ignored"));
    assert!(!predictor.has_input("\0image"));
    assert_eq!(predictor.input("image\0ignored").name, b"image\0ignored\0".to_vec());
}

#[test]
fn run_judges_the_flag() {
    let predictor = ready(42);
    assert_eq!(predictor.run(1), Ok(()));
    assert_eq!(predictor.run(0), Err(RunError::Failed));
    assert_eq!(predictor.run(-1), Ok(()));
}

#[test]
fn a_failed_run_can_be_made_again() {
    let predictor = ready(42);
    assert_eq!(predictor.run(0), Err(RunError::Failed));
    assert_eq!(predictor.state(), State::Ready);
    assert_eq!(predictor.input_num(), 2);
    assert!(predictor.has_input("image"));
    assert_eq!(predictor.run(1), Ok(()));
    assert_eq!(predictor.state(), State::Ready);
}

#[test]
fn clear_intermediate_tensor_changes_nothing() {
    let predictor = ready(42);
    predictor.clear_intermediate_tensor();
    assert_eq!(predictor.state(), State::Ready);
    assert_eq!(predictor.input_names(), vec!["image".to_string(), "im_shape".to_string()]);
    assert_eq!(predictor.input("image").predictor, 42);
}

#[test]
fn a_clone_has_its_own_handle_and_the_same_names() {
    let source = ready(42);
    let clone = source.cloned(43);
    assert_eq!(clone.state(), State::Ready);
    assert_eq!(clone.input_names(), source.input_names());
    assert_eq!(clone.output_names(), source.output_names());
    assert_eq!(clone.input("image").predictor, 43);
    assert_eq!(source.input("image").predictor, 42);
}

#[test]
fn destroying_a_clone_leaves_its_source() {
    let source = ready(42);
    let view = source.input("image");
    let mut clone = source.cloned(43);
    assert_eq!(clone.destroy(), Some(43));
    assert_eq!(clone.state(), State::Destroyed);
    assert_eq!(source.state(), State::Ready);
    assert_eq!(source.run(1), Ok(()));
    assert_eq!(source.input("image"), view);
    assert!(source.has_input("image"));
}

#[test]
fn destroy_releases_the_handle_once() {
    let mut predictor = ready(42);
    assert_eq!(predictor.destroy(), Some(42));
    assert_eq!(predictor.state(), State::Destroyed);
    assert_eq!(predictor.destroy(), None);
    assert_eq!(predictor.state(), State::Destroyed);
}

#[test]
fn destroying_before_creation_releases_no_predictor() {
    let model = Model::Memory { model_buffer: vec![], params_buffer: vec![] };
    let mut predictor = Predictor::new(Config::new(model)).unwrap();
    assert_eq!(predictor.destroy(), None);
    assert_eq!(predictor.state(), State::Destroyed);
}
