use bevy_fallible::ast::{
    FunctionDef, FunctionSpec, Mode, Parameter, Pattern, Signature, Stmt, TransformError, TypeExpr,
};
use bevy_fallible::policy::{
    final_parameters, leading_capability, injected_parameter, PolicyEntry, PolicyTable, Resolution,
};
use bevy_fallible::transform::{fallable_system, fallible_system, Computation, ModifiedFold, OriginalFold};

fn ty(name: &str, args: &[&str]) -> TypeExpr {
    TypeExpr {
        name: name.to_string(),
        args: args.iter().map(|s| s.to_string()).collect(),
    }
}

fn param(name: &str, ty_name: &str) -> Parameter {
    Parameter {
        binding: Pattern { mutable: false, name: name.to_string() },
        ty: ty(ty_name, &[]),
    }
}

fn result_ty() -> TypeExpr {
    ty("Result", &["()", "Error"])
}

fn make_def(name: &str, params: Vec<Parameter>, ret: Option<TypeExpr>, body: &[&str]) -> FunctionDef {
    FunctionDef {
        sig: Signature { name: name.to_string(), params, ret },
        body: body.iter().map(|s| Stmt { text: s.to_string() }).collect(),
    }
}

#[test]
fn mode_parse_defaults_to_replace() {
    assert_eq!(Mode::parse(&None), Ok(Mode::Replace));
}

#[test]
fn mode_parse_keep() {
    assert_eq!(Mode::parse(&Some("keep".to_string())), Ok(Mode::Keep));
}

#[test]
fn mode_parse_unexpected_attribute() {
    assert_eq!(
        Mode::parse(&Some("drop".to_string())),
        Err(TransformError::UnexpectedAttribute)
    );
}

#[test]
fn malformed_signature_is_refused() {
    let no_ret = make_def("sys", vec![], None, &["Ok(())"]);
    assert!(matches!(fallible_system(no_ret), Err(TransformError::MalformedSignature)));

    let not_sum = make_def("sys", vec![], Some(ty("u32", &[])), &["0"]);
    assert!(matches!(fallible_system(not_sum), Err(TransformError::MalformedSignature)));

    let one_arm = make_def("sys", vec![], Some(ty("Result", &["()"])), &["Ok(())"]);
    assert!(matches!(fallible_system(one_arm), Err(TransformError::MalformedSignature)));
}

#[test]
fn unexpected_attribute_wins_over_signature() {
    let no_ret = make_def("sys", vec![], None, &["Ok(())"]);
    assert!(matches!(
        fallable_system(no_ret, Some("drop".to_string())),
        Err(TransformError::UnexpectedAttribute)
    ));
}

#[test]
fn missing_result_type_is_defensive() {
    let fold = ModifiedFold::new(Mode::Replace);
    let spec = FunctionSpec {
        name: "sys".to_string(),
        parameters: vec![],
        result_type: ty("u32", &[]),
        body: vec![],
    };
    assert!(matches!(fold.fold_block(&spec), Err(TransformError::MissingResultType)));
}

#[test]
fn injected_parameter_is_the_fixed_constant() {
    let p = injected_parameter();
    assert!(p.binding.mutable);
    assert_eq!(p.binding.name, "__error_events");
    assert_eq!(p.ty.name, "ResMut");
    assert_eq!(p.ty.args, vec!["Events<SystemErrorEvent>".to_string()]);
}

#[test]
fn injected_parameter_lands_first_without_capability() {
    let def = make_def("sys", vec![param("res", "Res")], Some(result_ty()), &["Ok(())"]);
    let out = fallible_system(def).unwrap();
    let params = &out.rewritten.sig.params;
    assert_eq!(params.len(), 2);
    assert_eq!(params[0].binding.name, "__error_events");
    assert_eq!(params[1].binding.name, "res");
    assert_eq!(params[1].ty.name, "Res");
    assert!(!params[1].binding.mutable);
}

#[test]
fn scenario_commands_keeps_position_zero() {
    let def = make_def(
        "sys",
        vec![param("commands", "Commands"), param("res", "Res")],
        Some(result_ty()),
        &["Ok(())"],
    );
    let out = fallible_system(def).unwrap();
    let params = &out.rewritten.sig.params;
    assert_eq!(params.len(), 3);
    assert_eq!(params[0].binding.name, "commands");
    assert_eq!(params[0].ty.name, "Commands");
    assert_eq!(params[1].binding.name, "__error_events");
    assert_eq!(params[2].binding.name, "res");
    assert_eq!(params[2].ty.name, "Res");
}

#[test]
fn replace_mode_inlines_the_body() {
    let def = make_def("sys", vec![], Some(result_ty()), &["let x = load()?;", "Ok(())"]);
    let out = fallible_system(def).unwrap();
    assert!(out.preserved.is_none());
    assert_eq!(out.rewritten.sig.name, "sys");
    assert!(out.rewritten.sig.ret.is_none());
    assert_eq!(out.rewritten.body.report_name, "sys");
    assert_eq!(out.rewritten.body.sink_binding, "__error_events");
    assert_eq!(out.rewritten.body.capture_ty.name, "Result");
    match &out.rewritten.body.computation {
        Computation::Inline { stmts } => {
            let texts: Vec<&str> = stmts.iter().map(|s| s.text.as_str()).collect();
            assert_eq!(texts, vec!["let x = load()?;", "Ok(())"]);
        }
        Computation::Forward { .. } => panic!("replace mode must inline the body"),
    }
}

#[test]
fn scenario_keep_emits_two_functions() {
    let def = make_def(
        "do_work",
        vec![param("commands", "Commands"), param("res", "Res")],
        Some(result_ty()),
        &["work(res)?;", "Ok(())"],
    );
    let out = fallable_system(def, Some("keep".to_string())).unwrap();

    let preserved = out.preserved.as_ref().expect("keep mode preserves the original");
    assert_eq!(preserved.sig.name, "do_work_fallible");
    assert_eq!(preserved.sig.params.len(), 2);
    assert_eq!(preserved.sig.params[0].binding.name, "commands");
    assert_eq!(preserved.sig.params[1].binding.name, "res");
    let ret = preserved.sig.ret.as_ref().expect("result type is never altered");
    assert_eq!(ret.name, "Result");
    assert_eq!(ret.args, vec!["()".to_string(), "Error".to_string()]);
    let body: Vec<&str> = preserved.body.iter().map(|s| s.text.as_str()).collect();
    assert_eq!(body, vec!["work(res)?;", "Ok(())"]);

    assert_eq!(out.rewritten.sig.name, "do_work");
    assert!(out.rewritten.sig.ret.is_none());
    assert_eq!(out.rewritten.sig.params.len(), 3);
    assert_eq!(out.rewritten.sig.params[1].binding.name, "__error_events");
    assert_eq!(out.rewritten.body.report_name, "do_work");
    match &out.rewritten.body.computation {
        Computation::Forward { callee, args } => {
            assert_eq!(callee, "do_work_fallible");
            let names: Vec<&str> = args.iter().map(|p| p.name.as_str()).collect();
            assert_eq!(names, vec!["commands", "res"]);
        }
        Computation::Inline { .. } => panic!("keep mode must forward to the renamed original"),
    }
}

#[test]
fn fold_signature_renames_only_in_keep_mode() {
    let sig = Signature {
        name: "sys".to_string(),
        params: vec![param("res", "Res")],
        ret: Some(result_ty()),
    };
    let kept = OriginalFold::new(Mode::Keep).fold_signature(sig);
    assert_eq!(kept.name, "sys_fallible");
    assert_eq!(kept.params.len(), 1);
    assert_eq!(kept.params[0].binding.name, "res");
    assert!(kept.ret.is_some());

    let sig2 = Signature { name: "sys".to_string(), params: vec![], ret: Some(result_ty()) };
    let same = OriginalFold::new(Mode::Replace).fold_signature(sig2);
    assert_eq!(same.name, "sys");
}

#[test]
fn policy_first_match_wins() {
    let table = PolicyTable {
        entries: vec![
            PolicyEntry { ty_name: "Commands".to_string(), resolution: Resolution::ByType },
            PolicyEntry { ty_name: "Commands".to_string(), resolution: Resolution::Positional },
        ],
    };
    assert_eq!(table.resolution_of(&"Commands".to_string()), Resolution::ByType);
    assert_eq!(table.resolution_of(&"Res".to_string()), Resolution::ByType);

    let standard = PolicyTable::default();
    assert_eq!(standard.resolution_of(&"Commands".to_string()), Resolution::Positional);
    assert_eq!(standard.resolution_of(&"Res".to_string()), Resolution::ByType);
}

#[test]
fn leading_capability_inspects_position_zero_only() {
    let table = PolicyTable::default();
    assert!(!leading_capability(&vec![], &table));
    assert!(leading_capability(&vec![param("c", "Commands")], &table));
    assert!(!leading_capability(&vec![param("res", "Res"), param("c", "Commands")], &table));

    let spliced = final_parameters(&vec![param("res", "Res"), param("c", "Commands")], &table);
    assert_eq!(spliced.len(), 3);
    assert_eq!(spliced[0].binding.name, "__error_events");
    assert_eq!(spliced[1].binding.name, "res");
    assert_eq!(spliced[2].binding.name, "c");
}

#[test]
fn no_argument_function_gets_only_the_sink() {
    let def = make_def("system", vec![], Some(result_ty()), &["Ok(())"]);
    let out = fallible_system(def).unwrap();
    assert_eq!(out.rewritten.sig.params.len(), 1);
    assert_eq!(out.rewritten.sig.params[0].binding.name, "__error_events");
}
