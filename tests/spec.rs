use libsoxr::api::soxr_datatype_t;
use libsoxr::{Datatype, IOSpec, QualityFlags, QualityRecipe, QualitySpec, RuntimeSpec};

#[test]
fn test_create_io_spec() {
    let spec = IOSpec::new(Datatype::Float32I, Datatype::Int32I);
    assert_eq!(Datatype::Float32I, spec.input_type());
    assert_eq!(Datatype::Int32I, spec.output_type());
    assert_eq!(
        Datatype::Float32I.to_soxr_datatype() as isize,
        spec.input_type().to_soxr_datatype().code() as isize
    );
    assert_eq!(
        Datatype::Int32I.to_soxr_datatype() as isize,
        spec.output_type().to_soxr_datatype().code() as isize
    );
    assert_eq!(0, spec.input_type().to_soxr_datatype().code());
    assert_eq!(2, spec.output_type().to_soxr_datatype().code());

    let spec = IOSpec::new(Datatype::Float32S, Datatype::Int32S);
    assert_eq!(Datatype::Float32S, spec.input_type());
    assert_eq!(Datatype::Int32S, spec.output_type());
    assert_eq!(
        Datatype::Float32S.to_soxr_datatype() as isize,
        spec.input_type().to_soxr_datatype().code() as isize
    );
    assert_eq!(
        Datatype::Int32S.to_soxr_datatype() as isize,
        spec.output_type().to_soxr_datatype().code() as isize
    );
    assert_eq!(4, spec.input_type().to_soxr_datatype().code());
    assert_eq!(6, spec.output_type().to_soxr_datatype().code());
}

#[test]
fn test_create_runtime_spec() {
    let spec = RuntimeSpec::new(16);
    assert_eq!(16, spec.num_threads());
}

#[test]
fn test_create_quality_spec() {
    let spec = QualitySpec::new(
        &QualityRecipe::High,
        QualityFlags::rolloff_small().union(QualityFlags::rolloff_medium()),
    );
    let result = QualityFlags::from_bits_truncate(spec.flags().bits());
    assert!(result.contains(QualityFlags::rolloff_small().union(QualityFlags::rolloff_medium())));
}

#[test]
fn datatype_codes_follow_the_native_order() {
    let all = [
        Datatype::Float32I,
        Datatype::Float64I,
        Datatype::Int32I,
        Datatype::Int16I,
        Datatype::Float32S,
        Datatype::Float64S,
        Datatype::Int32S,
        Datatype::Int16S,
    ];
    for (i, d) in all.iter().enumerate() {
        assert_eq!(i as u32, d.to_soxr_datatype().code());
        assert_eq!(i < 4, d.is_interleaved());
    }
    assert_eq!(soxr_datatype_t::SOXR_INT16_S, Datatype::Int16S.to_soxr_datatype());
    assert_eq!(5, soxr_datatype_t::SOXR_FLOAT64_S as isize);
}

#[test]
fn quality_recipes_map_to_native_constants() {
    assert_eq!(0, QualityRecipe::Quick.to_recipe());
    assert_eq!(1, QualityRecipe::Low.to_recipe());
    assert_eq!(2, QualityRecipe::Medium.to_recipe());
    assert_eq!(4, QualityRecipe::High.to_recipe());
    assert_eq!(6, QualityRecipe::VeryHigh.to_recipe());
    let spec = QualitySpec::new(&QualityRecipe::VeryHigh, QualityFlags::hi_prec_clock());
    assert_eq!(6, spec.recipe());
    assert_eq!(8, spec.flags().bits());
}

#[test]
fn quality_flags_bits() {
    assert_eq!(0, QualityFlags::rolloff_small().bits());
    assert_eq!(1, QualityFlags::rolloff_medium().bits());
    assert_eq!(2, QualityFlags::rolloff_none().bits());
    assert_eq!(8, QualityFlags::hi_prec_clock().bits());
    assert_eq!(16, QualityFlags::double_precision().bits());
    assert_eq!(32, QualityFlags::vr().bits());
    assert_eq!(59, QualityFlags::all().bits());
    assert_eq!(0, QualityFlags::empty().bits());
    assert_eq!(59, QualityFlags::from_bits_truncate(0xff).bits());
    assert!(QualityFlags::from_bits(4).is_none());
    assert_eq!(Some(QualityFlags::vr()), QualityFlags::from_bits(32));
}

#[test]
fn quality_flags_set_operations() {
    let mut flags = QualityFlags::hi_prec_clock();
    flags.insert(QualityFlags::vr());
    assert_eq!(40, flags.bits());
    assert!(flags.contains(QualityFlags::vr()));
    assert!(!flags.contains(QualityFlags::double_precision()));
    assert!(flags.contains(QualityFlags::rolloff_small()));
    flags.remove(QualityFlags::hi_prec_clock());
    assert_eq!(QualityFlags::vr(), flags);
}
