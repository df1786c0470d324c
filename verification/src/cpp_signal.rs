//! The native-side fragments of an object's signals: the signal declaration
//! itself (unless the signal is inherited) and a typed connect function that
//! registers a trampoline on the native side, forwarding every parameter by
//! move and running the caller-supplied lock guard before invoking the
//! bridge-side callback.

use vstd::prelude::*;
use vstd::string::*;

use crate::cpp_types::{NameMap, TypeError, spec_to_cpp, to_cpp_string};
use crate::fragment::{CppFragment, GCppFragment, GeneratedCppQObjectBlocks};
use crate::naming::{QObjectName, QSignalName, spec_connect_cpp};
use crate::parser::{GParam, GSignal, ParsedSignal};
use crate::text::spec_join;

verus! {

/// The native declaration of one parameter, `<type> <name>`.
pub open spec fn spec_param_decl(p: GParam, m: Seq<(Seq<char>, Seq<char>)>) -> Result<
    Seq<char>,
    TypeError,
> {
    match spec_to_cpp(p.ty, m) {
        Result::Ok(t) => Result::Ok(t + " "@ + p.ident),
        Result::Err(e) => Result::Err(e),
    }
}

/// The native declarations of the parameters from `i` on, appended to
/// `acc`; the first failing parameter wins.
pub open spec fn spec_param_decls(
    ps: Seq<GParam>,
    m: Seq<(Seq<char>, Seq<char>)>,
    i: int,
    acc: Seq<Seq<char>>,
) -> Result<Seq<Seq<char>>, TypeError>
    decreases ps.len() - i
        when 0 <= i <= ps.len()
{
    if i == ps.len() {
        Result::Ok(acc)
    } else {
        match spec_param_decl(ps[i], m) {
            Result::Ok(d) => spec_param_decls(ps, m, i + 1, acc.push(d)),
            Result::Err(e) => Result::Err(e),
        }
    }
}

/// The move expressions that the trampoline forwards, one per parameter.
pub open spec fn spec_move_values(ps: Seq<GParam>, i: int, acc: Seq<Seq<char>>) -> Seq<
    Seq<char>,
>
    decreases ps.len() - i
        when 0 <= i <= ps.len()
{
    if i == ps.len() {
        acc
    } else {
        spec_move_values(ps, i + 1, acc.push("::std::move("@ + ps[i].ident + ")"@))
    }
}

/// The header declaration of a newly defined signal.
pub open spec fn spec_signal_header(cpp: Seq<char>, decls: Seq<Seq<char>>) -> Seq<char> {
    "Q_SIGNAL void "@ + cpp + "("@ + spec_join(decls, ", "@) + ");"@
}

/// The header declaration of a signal's connect function.
pub open spec fn spec_connect_header(connect_cpp: Seq<char>, rust_decls: Seq<Seq<char>>)
    -> Seq<char> {
    "::QMetaObject::Connection "@ + connect_cpp + "(::rust::Fn<void("@ + spec_join(
        rust_decls,
        ", "@,
    ) + ")> func, ::Qt::ConnectionType type);"@
}

/// The text of the lock guard, or nothing where locking is disabled.
pub open spec fn spec_guard(guard: Option<Seq<char>>) -> Seq<char> {
    match guard {
        Option::Some(g) => g,
        Option::None => Seq::empty(),
    }
}

/// The out-of-line definition of a signal's connect function.
pub open spec fn spec_connect_source(
    qobject: Seq<char>,
    connect_cpp: Seq<char>,
    signal_cpp: Seq<char>,
    rust_decls: Seq<Seq<char>>,
    cpp_decls: Seq<Seq<char>>,
    values: Seq<Seq<char>>,
    guard: Option<Seq<char>>,
) -> Seq<char> {
    "::QMetaObject::Connection\n"@ + qobject + "::"@ + connect_cpp + "(::rust::Fn<void("@
        + spec_join(rust_decls, ", "@) + ")> func, ::Qt::ConnectionType type)\n{\n    return ::QObject::connect(this,\n            &"@
        + qobject + "::"@ + signal_cpp + ",\n            this,\n            [&, func = ::std::move(func)]("@
        + spec_join(cpp_decls, ", "@) + ") {\n              "@ + spec_guard(guard)
        + "\n              func("@ + spec_join(values, ", "@)
        + ");\n            }, type);\n}\n"@
}

/// The native fragments of one signal: the declaration where the signal is
/// newly defined, and the connect pair always. The trampoline's signature
/// takes the receiver first, then the declared parameters in source order.
pub open spec fn spec_signal_fragments(
    s: GSignal,
    qobject: Seq<char>,
    m: Seq<(Seq<char>, Seq<char>)>,
    guard: Option<Seq<char>>,
) -> Result<Seq<GCppFragment>, TypeError> {
    match spec_param_decls(s.parameters, m, 0, Seq::empty()) {
        Result::Err(e) => Result::Err(e),
        Result::Ok(decls) => {
            let values = spec_move_values(s.parameters, 0, Seq::empty());
            let rust_decls = seq![qobject + "&"@] + decls;
            let conn_values = seq!["*this"@] + values;
            let connect_cpp = spec_connect_cpp(s.cpp);
            let connect = GCppFragment::Pair {
                header: spec_connect_header(connect_cpp, rust_decls),
                source: spec_connect_source(
                    qobject,
                    connect_cpp,
                    s.cpp,
                    rust_decls,
                    decls,
                    conn_values,
                    guard,
                ),
            };
            if s.inherit {
                Result::Ok(seq![connect])
            } else {
                Result::Ok(
                    seq![
                        GCppFragment::Header(spec_signal_header(s.cpp, decls)),
                        connect,
                    ],
                )
            }
        },
    }
}

/// The native fragments of the signals from `i` on, appended to `acc`; the
/// first failing signal wins.
pub open spec fn spec_cpp_signals(
    sigs: Seq<GSignal>,
    qobject: Seq<char>,
    m: Seq<(Seq<char>, Seq<char>)>,
    guard: Option<Seq<char>>,
    i: int,
    acc: Seq<GCppFragment>,
) -> Result<Seq<GCppFragment>, TypeError>
    decreases sigs.len() - i
        when 0 <= i <= sigs.len()
{
    if i == sigs.len() {
        Result::Ok(acc)
    } else {
        match spec_signal_fragments(sigs[i], qobject, m, guard) {
            Result::Err(e) => Result::Err(e),
            Result::Ok(frags) => spec_cpp_signals(sigs, qobject, m, guard, i + 1, acc + frags),
        }
    }
}

/// Generate the native fragments of every signal, in declaration order.
#[verifier::loop_isolation(false)]
pub fn generate_cpp_signals(
    signals: &Vec<ParsedSignal>,
    qobject_idents: &QObjectName,
    cxx_mappings: &NameMap,
    lock_guard: Option<&str>,
) -> (r: Result<GeneratedCppQObjectBlocks, TypeError>)
    ensures
        match r {
            Result::Ok(g) => spec_cpp_signals(
                signals@.map_values(|s: ParsedSignal| s@),
                qobject_idents.cpp_class.cpp@,
                cxx_mappings@,
                crate::text::opt_str_view(lock_guard),
                0,
                Seq::empty(),
            ) == Result::<Seq<GCppFragment>, TypeError>::Ok(
                g.methods@.map_values(|f: CppFragment| f@),
            ),
            Result::Err(e) => spec_cpp_signals(
                signals@.map_values(|s: ParsedSignal| s@),
                qobject_idents.cpp_class.cpp@,
                cxx_mappings@,
                crate::text::opt_str_view(lock_guard),
                0,
                Seq::empty(),
            ) == Result::<Seq<GCppFragment>, TypeError>::Err(e),
        },
{
    let ghost gsigs = signals@.map_values(|s: ParsedSignal| s@);
    let ghost gq = qobject_idents.cpp_class.cpp@;
    let ghost gm = cxx_mappings@;
    let ghost gguard = crate::text::opt_str_view(lock_guard);
    let mut generated = GeneratedCppQObjectBlocks::new();
    proof {
        assert(generated.methods@.map_values(|f: CppFragment| f@) =~= Seq::<
            GCppFragment,
        >::empty());
    }
    let qobject_ident = qobject_idents.cpp_class.cpp.clone();
    let mut i: usize = 0;
    while i < signals.len()
        invariant
            0 <= i <= signals@.len(),
            qobject_ident@ == gq,
            spec_cpp_signals(gsigs, gq, gm, gguard, 0, Seq::empty()) == spec_cpp_signals(
                gsigs,
                gq,
                gm,
                gguard,
                i as int,
                generated.methods@.map_values(|f: CppFragment| f@),
            ),
        decreases signals@.len() - i,
    {
        let signal = &signals[i];
        let ghost gsig = gsigs[i as int];
        let ghost gps = gsig.parameters;

        // The native declarations and the forwarded values of the parameters.
        let mut parameter_types_cpp: Vec<String> = Vec::new();
        let mut parameter_values_emitter: Vec<String> = Vec::new();
        proof {
            assert(parameter_types_cpp@.map_values(|s: String| s@) =~= Seq::<
                Seq<char>,
            >::empty());
            assert(parameter_values_emitter@.map_values(|s: String| s@) =~= Seq::<
                Seq<char>,
            >::empty());
        }
        let mut j: usize = 0;
        while j < signal.parameters.len()
            invariant
                0 <= j <= signal.parameters@.len(),
                gps == gsig.parameters,
                gps.len() == signal.parameters@.len(),
                spec_param_decls(gps, gm, 0, Seq::empty()) == spec_param_decls(
                    gps,
                    gm,
                    j as int,
                    parameter_types_cpp@.map_values(|s: String| s@),
                ),
                spec_move_values(gps, 0, Seq::empty()) == spec_move_values(
                    gps,
                    j as int,
                    parameter_values_emitter@.map_values(|s: String| s@),
                ),
            decreases signal.parameters@.len() - j,
        {
            let parameter = &signal.parameters[j];
            let ghost decls0 = parameter_types_cpp@.map_values(|s: String| s@);
            let ghost values0 = parameter_values_emitter@.map_values(|s: String| s@);
            let cxx_ty = match to_cpp_string(&parameter.ty, cxx_mappings) {
                Result::Ok(t) => t,
                Result::Err(e) => {
                    return Result::Err(e);
                },
            };
            let mut decl = cxx_ty;
            decl.append(" ");
            decl.append(parameter.ident.as_str());
            let mut mv = "::std::move(".to_owned();
            mv.append(parameter.ident.as_str());
            mv.append(")");
            parameter_types_cpp.push(decl);
            parameter_values_emitter.push(mv);
            proof {
                assert(parameter_types_cpp@.map_values(|s: String| s@) =~= decls0.push(
                    parameter_types_cpp@.last()@,
                ));
                assert(parameter_values_emitter@.map_values(|s: String| s@) =~= values0.push(
                    parameter_values_emitter@.last()@,
                ));
            }
            j = j + 1;
        }
        let ghost decls = parameter_types_cpp@.map_values(|s: String| s@);
        let ghost values = parameter_values_emitter@.map_values(|s: String| s@);

        // Every fragment of this signal derives its spelling from this one
        // name bundle.
        let idents = QSignalName::from_idents(
            signal.ident.cpp.as_str(),
            signal.ident.rust.as_str(),
        );
        let signal_ident = idents.name.cpp;
        let connect_ident = idents.connect_name.cpp;

        let ghost frags0 = generated.methods@.map_values(|f: CppFragment| f@);

        // The signal declaration itself, unless it already exists natively.
        if !signal.inherit {
            let joined = crate::text::join_strs(&parameter_types_cpp, ", ");
            let mut header = "Q_SIGNAL void ".to_owned();
            header.append(signal_ident.as_str());
            header.append("(");
            header.append(joined.as_str());
            header.append(");");
            proof {
                assert(header@ =~= spec_signal_header(gsig.cpp, decls));
            }
            generated.methods.push(CppFragment::Header(header));
        }

        // The connect function: receiver first, then the declared
        // parameters in source order.
        let mut parameter_types_rust: Vec<String> = Vec::new();
        let mut qobject_ref = qobject_ident.clone();
        qobject_ref.append("&");
        parameter_types_rust.push(qobject_ref);
        let mut k: usize = 0;
        let ghost rust_decls = seq![gq + "&"@] + decls;
        while k < parameter_types_cpp.len()
            invariant
                0 <= k <= parameter_types_cpp@.len(),
                decls == parameter_types_cpp@.map_values(|s: String| s@),
                parameter_types_rust@.map_values(|s: String| s@) =~= rust_decls.subrange(
                    0,
                    k + 1int,
                ),
            decreases parameter_types_cpp@.len() - k,
        {
            parameter_types_rust.push(parameter_types_cpp[k].clone());
            proof {
                assert(parameter_types_rust@.map_values(|s: String| s@) =~= rust_decls
                    .subrange(0, k + 2int));
            }
            k = k + 1;
        }
        proof {
            assert(rust_decls.subrange(0, rust_decls.len() as int) =~= rust_decls);
            assert(parameter_types_rust@.map_values(|s: String| s@) == rust_decls);
        }

        let mut parameter_values_connection: Vec<String> = Vec::new();
        parameter_values_connection.push("*this".to_owned());
        let mut l: usize = 0;
        let ghost conn_values = seq!["*this"@] + values;
        while l < parameter_values_emitter.len()
            invariant
                0 <= l <= parameter_values_emitter@.len(),
                values == parameter_values_emitter@.map_values(|s: String| s@),
                parameter_values_connection@.map_values(|s: String| s@) =~= conn_values
                    .subrange(0, l + 1int),
            decreases parameter_values_emitter@.len() - l,
        {
            parameter_values_connection.push(parameter_values_emitter[l].clone());
            proof {
                assert(parameter_values_connection@.map_values(|s: String| s@) =~= conn_values
                    .subrange(0, l + 2int));
            }
            l = l + 1;
        }
        proof {
            assert(conn_values.subrange(0, conn_values.len() as int) =~= conn_values);
            assert(parameter_values_connection@.map_values(|s: String| s@) == conn_values);
        }

        let rust_joined = crate::text::join_strs(&parameter_types_rust, ", ");
        let mut header = "::QMetaObject::Connection ".to_owned();
        header.append(connect_ident.as_str());
        header.append("(::rust::Fn<void(");
        header.append(rust_joined.as_str());
        header.append(")> func, ::Qt::ConnectionType type);");
        proof {
            assert(header@ =~= spec_connect_header(spec_connect_cpp(gsig.cpp), rust_decls));
        }

        let cpp_joined = crate::text::join_strs(&parameter_types_cpp, ", ");
        let values_joined = crate::text::join_strs(&parameter_values_connection, ", ");
        let mut source = "::QMetaObject::Connection\n".to_owned();
        source.append(qobject_ident.as_str());
        source.append("::");
        source.append(connect_ident.as_str());
        source.append("(::rust::Fn<void(");
        source.append(rust_joined.as_str());
        source.append(")> func, ::Qt::ConnectionType type)\n{\n    return ::QObject::connect(this,\n            &");
        source.append(qobject_ident.as_str());
        source.append("::");
        source.append(signal_ident.as_str());
        source.append(",\n            this,\n            [&, func = ::std::move(func)](");
        source.append(cpp_joined.as_str());
        source.append(") {\n              ");
        match lock_guard {
            Option::Some(guard) => {
                source.append(guard);
            },
            Option::None => {},
        }
        source.append("\n              func(");
        source.append(values_joined.as_str());
        source.append(");\n            }, type);\n}\n");
        proof {
            reveal_strlit("");
            assert(source@ =~= spec_connect_source(
                gq,
                spec_connect_cpp(gsig.cpp),
                gsig.cpp,
                rust_decls,
                decls,
                conn_values,
                gguard,
            ));
        }
        generated.methods.push(CppFragment::Pair { header, source });

        proof {
            let frags = spec_signal_fragments(gsig, gq, gm, gguard)->Ok_0;
            assert(generated.methods@.map_values(|f: CppFragment| f@) =~= frags0 + frags);
        }
        i = i + 1;
    }
    Result::Ok(generated)
}

} // verus!
