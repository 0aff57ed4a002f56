//! The whole argument check of a builtin call: the overload-specific checks
//! of the time, timestamp and drawing builtins, or the generic arity and type
//! checks followed by every value rule that applies to the builtin.
use vstd::prelude::*;

use crate::alerts::{is_alert_call, spec_alert_arg_diags, spec_alert_arg_refusals, validate_alert_args};
use crate::arg_facts::ArgFacts;
use crate::array_checks::{opt_inference, spec_array_concat_args_diags, spec_array_from_args_diags, spec_array_value_args_diags, spec_user_type_array_concat_args_diags, spec_user_type_array_helper_args_diags, spec_user_type_array_value_args_diags, validate_array_concat_args, validate_array_from_args, validate_array_value_args, validate_user_type_array_concat_args, validate_user_type_array_helper_args, validate_user_type_array_value_args};
use crate::builtin_names::{
    is_time_function_overload, is_timestamp_overload, spec_is_time_function_overload,
    spec_is_timestamp_overload,
};
use crate::call_checks::{spec_call_arity_and_type_diags, spec_call_has_too_few_args, validate_call_arity_and_types};
use crate::compatibility::{unsupported_view, UnsupportedFeature, UnsupportedView};
use crate::declaration_checks::{
    spec_indicator_args_diags, spec_max_bars_back_args_diags, spec_settings_after,
    validate_indicator_args, validate_max_bars_back_args, DrawingSettings,
};
use crate::drawing_checks::{
    spec_box_new_overload_diags, spec_box_new_params, spec_label_new_overload_diags,
    spec_label_new_params, spec_line_new_overload_diags, spec_line_new_params, validate_box_new_args,
    validate_label_new_args, validate_line_new_args,
};
use crate::signatures::BuiltinSignature;
use crate::strings::opt_string_view;
use crate::syntax::{concat_diags, concat_steps, diags_view, CallArg, DiagView, Diagnostic};
use crate::time_checks::{
    spec_time_function_diags, spec_timestamp_diags, validate_time_function_args,
    validate_timestamp_args,
};
use crate::types::PineType;
use crate::user_types::UserTypeArrayElementInference;

verus! {

/// What the analysis knows of a call beyond its arguments' types: what
/// constant evaluation knows of each argument, the user-defined types it
/// named for the array argument, the value argument and the second array of
/// a concatenation, and, for `array.from`, whether the element types give an
/// array kind and what it found of user-defined type elements.
pub struct CallContext {
    pub facts: Vec<ArgFacts>,
    pub array_type_name: Option<String>,
    pub value_type_name: Option<String>,
    pub second_array_type_name: Option<String>,
    pub array_from_element_type_known: bool,
    pub array_from_inference: Option<UserTypeArrayElementInference>,
}

/// The array rules that follow the generic arity and type checks.
pub open spec fn spec_array_rule_diags(
    signature: BuiltinSignature,
    args: Seq<CallArg>,
    arg_types: Seq<Option<PineType>>,
    context: CallContext,
) -> Seq<DiagView> {
    spec_user_type_array_value_args_diags(
        signature,
        args,
        arg_types,
        opt_string_view(context.array_type_name),
        opt_string_view(context.value_type_name),
    ) + spec_array_value_args_diags(signature, args, arg_types) + spec_array_concat_args_diags(
        signature,
        args,
        arg_types,
    ) + spec_user_type_array_concat_args_diags(
        signature,
        args,
        arg_types,
        opt_string_view(context.array_type_name),
        opt_string_view(context.second_array_type_name),
    ) + spec_array_from_args_diags(
        signature,
        args,
        arg_types,
        context.array_from_element_type_known,
        opt_inference(context.array_from_inference),
    ) + spec_user_type_array_helper_args_diags(signature, args, arg_types)
}

/// The declaration and alert rules that follow the array rules.
pub open spec fn spec_declaration_rule_diags(
    signature: BuiltinSignature,
    args: Seq<CallArg>,
    context: CallContext,
) -> Seq<DiagView> {
    let facts = context.facts@;
    (if signature.name@ == "indicator"@ {
        spec_indicator_args_diags(signature, args, facts)
    } else {
        Seq::empty()
    }) + spec_max_bars_back_args_diags(signature, args, facts) + (if is_alert_call(signature.name@) {
        concat_diags(args.len() as int, |i: int| spec_alert_arg_diags(signature, args, facts, i))
    } else {
        Seq::empty()
    })
}

/// The checks that follow the generic arity and type checks.
pub open spec fn spec_value_rule_diags(
    signature: BuiltinSignature,
    args: Seq<CallArg>,
    arg_types: Seq<Option<PineType>>,
    context: CallContext,
) -> Seq<DiagView> {
    spec_array_rule_diags(signature, args, arg_types, context) + spec_declaration_rule_diags(
        signature,
        args,
        context,
    )
}

/// Whether the generic checks and the value rules apply to a call.
pub open spec fn takes_generic_checks(name: Seq<char>) -> bool {
    !spec_is_time_function_overload(name) && !spec_is_timestamp_overload(name) && name
        != "label.new"@ && name != "line.new"@ && name != "box.new"@
}

/// What checking a call's arguments reports.
pub open spec fn spec_call_args_diags(
    signature: BuiltinSignature,
    args: Seq<CallArg>,
    arg_types: Seq<Option<PineType>>,
    context: CallContext,
) -> Seq<DiagView> {
    let name = signature.name@;
    let facts = context.facts@;
    if spec_is_time_function_overload(name) {
        spec_time_function_diags(name, args, arg_types)
    } else if spec_is_timestamp_overload(name) {
        spec_timestamp_diags(name, args, arg_types)
    } else if name == "label.new"@ {
        spec_label_new_overload_diags(args, arg_types, spec_label_new_params(args, arg_types), facts)
    } else if name == "line.new"@ {
        spec_line_new_overload_diags(args, arg_types, spec_line_new_params(args, arg_types), facts)
    } else if name == "box.new"@ {
        spec_box_new_overload_diags(args, arg_types, spec_box_new_params(args, arg_types), facts)
    } else {
        spec_call_arity_and_type_diags(signature, args, arg_types) + if spec_call_has_too_few_args(
            signature,
            args,
        ) {
            Seq::empty()
        } else {
            spec_value_rule_diags(signature, args, arg_types, context)
        }
    }
}

/// Whether a call goes on to the value rules.
pub open spec fn reaches_value_rules(signature: BuiltinSignature, args: Seq<CallArg>) -> bool {
    takes_generic_checks(signature.name@) && !spec_call_has_too_few_args(signature, args)
}

fn validate_array_rules(
    signature: &BuiltinSignature,
    args: &[CallArg],
    arg_types: &[Option<PineType>],
    context: &CallContext,
    diagnostics: &mut Vec<Diagnostic>,
)
    ensures
        diags_view(final(diagnostics)@) == diags_view(old(diagnostics)@) + spec_array_rule_diags(
            *signature,
            args@,
            arg_types@,
            *context,
        ),
{
    let ghost d0 = diags_view(diagnostics@);
    let array_type_name = match &context.array_type_name {
        Some(s) => Some(s.as_str()),
        None => None,
    };
    let value_type_name = match &context.value_type_name {
        Some(s) => Some(s.as_str()),
        None => None,
    };
    let second_array_type_name = match &context.second_array_type_name {
        Some(s) => Some(s.as_str()),
        None => None,
    };
    validate_user_type_array_value_args(
        signature,
        args,
        arg_types,
        array_type_name,
        value_type_name,
        diagnostics,
    );
    let ghost d1 = diags_view(diagnostics@);
    validate_array_value_args(signature, args, arg_types, diagnostics);
    let ghost d2 = diags_view(diagnostics@);
    validate_array_concat_args(signature, args, arg_types, diagnostics);
    let ghost d3 = diags_view(diagnostics@);
    validate_user_type_array_concat_args(
        signature,
        args,
        arg_types,
        array_type_name,
        second_array_type_name,
        diagnostics,
    );
    let ghost d4 = diags_view(diagnostics@);
    validate_array_from_args(
        signature,
        args,
        arg_types,
        context.array_from_element_type_known,
        &context.array_from_inference,
        diagnostics,
    );
    let ghost d5 = diags_view(diagnostics@);
    validate_user_type_array_helper_args(signature, args, arg_types, diagnostics);
    assert(diags_view(diagnostics@) =~= d0 + spec_array_rule_diags(
        *signature,
        args@,
        arg_types@,
        *context,
    ));
}

fn validate_declaration_rules(
    signature: &BuiltinSignature,
    args: &[CallArg],
    context: &CallContext,
    settings: &mut DrawingSettings,
    report: &mut Vec<UnsupportedFeature>,
    diagnostics: &mut Vec<Diagnostic>,
)
    ensures
        diags_view(final(diagnostics)@) == diags_view(old(diagnostics)@)
            + spec_declaration_rule_diags(*signature, args@, *context),
        *final(settings) == if signature.name@ == "indicator"@ {
            spec_settings_after(*old(settings), *signature, args@, context.facts@, args@.len() as int)
        } else {
            *old(settings)
        },
        unsupported_view(final(report)@) == unsupported_view(old(report)@) + if is_alert_call(
            signature.name@,
        ) {
            concat_steps(
                args@.len() as int,
                |i: int| spec_alert_arg_refusals(*signature, args@, context.facts@, i),
            )
        } else {
            Seq::<UnsupportedView>::empty()
        },
{
    let ghost d0 = diags_view(diagnostics@);
    let ghost r0 = unsupported_view(report@);
    proof {
        assert(r0 =~= r0 + Seq::<UnsupportedView>::empty());
    }
    let facts = context.facts.as_slice();
    validate_indicator_args(signature, args, facts, settings, diagnostics);
    let ghost d1 = diags_view(diagnostics@);
    validate_max_bars_back_args(signature, args, facts, diagnostics);
    let ghost d2 = diags_view(diagnostics@);
    validate_alert_args(signature, args, facts, report, diagnostics);
    assert(diags_view(diagnostics@) =~= d0 + spec_declaration_rule_diags(*signature, args@, *context));
}

/// The drawing limits after the argument check of a call: an
/// `indicator(...)` that reaches the value rules sets them.
pub open spec fn spec_call_args_settings(
    settings: DrawingSettings,
    signature: BuiltinSignature,
    args: Seq<CallArg>,
    context: CallContext,
) -> DrawingSettings {
    if reaches_value_rules(signature, args) && signature.name@ == "indicator"@ {
        spec_settings_after(settings, signature, args, context.facts@, args.len() as int)
    } else {
        settings
    }
}

/// The refused features the argument check of a call reports: those of an
/// alert call that reaches the value rules.
pub open spec fn spec_call_args_refusals(
    signature: BuiltinSignature,
    args: Seq<CallArg>,
    context: CallContext,
) -> Seq<UnsupportedView> {
    if reaches_value_rules(signature, args) && is_alert_call(signature.name@) {
        concat_steps(
            args.len() as int,
            |i: int| spec_alert_arg_refusals(signature, args, context.facts@, i),
        )
    } else {
        Seq::<UnsupportedView>::empty()
    }
}

/// Checks the arguments of a builtin call: what it reports goes to
/// `diagnostics`, refused alert features to `report`, and the drawing limits
/// an `indicator(...)` sets to `settings`.
pub fn validate_call_args(
    signature: &BuiltinSignature,
    args: &[CallArg],
    arg_types: &[Option<PineType>],
    context: &CallContext,
    settings: &mut DrawingSettings,
    report: &mut Vec<UnsupportedFeature>,
    diagnostics: &mut Vec<Diagnostic>,
)
    ensures
        diags_view(final(diagnostics)@) == diags_view(old(diagnostics)@) + spec_call_args_diags(
            *signature,
            args@,
            arg_types@,
            *context,
        ),
        *final(settings) == spec_call_args_settings(*old(settings), *signature, args@, *context),
        unsupported_view(final(report)@) == unsupported_view(old(report)@) + spec_call_args_refusals(
            *signature,
            args@,
            *context,
        ),
{
    let ghost start = diags_view(diagnostics@);
    let ghost start_report = unsupported_view(report@);
    proof {
        assert(start_report =~= start_report + Seq::<UnsupportedView>::empty());
    }
    let facts = context.facts.as_slice();
    if is_time_function_overload(signature.name) {
        validate_time_function_args(signature.name, args, arg_types, diagnostics);
        return ;
    }
    if is_timestamp_overload(signature.name) {
        validate_timestamp_args(signature.name, args, arg_types, diagnostics);
        return ;
    }
    if validate_label_new_args(signature, args, arg_types, facts, diagnostics) {
        return ;
    }
    if validate_line_new_args(signature, args, arg_types, facts, diagnostics) {
        return ;
    }
    if validate_box_new_args(signature, args, arg_types, facts, diagnostics) {
        return ;
    }
    assert(diags_view(diagnostics@) =~= start);
    if !validate_call_arity_and_types(signature, args, arg_types, diagnostics) {
        assert(diags_view(diagnostics@) =~= start + spec_call_args_diags(
            *signature,
            args@,
            arg_types@,
            *context,
        ));
        return ;
    }
    let ghost after_generic = diags_view(diagnostics@);
    validate_array_rules(signature, args, arg_types, context, diagnostics);
    validate_declaration_rules(signature, args, context, settings, report, diagnostics);
    assert(diags_view(diagnostics@) =~= start + spec_call_args_diags(
        *signature,
        args@,
        arg_types@,
        *context,
    ));
}

} // verus!
