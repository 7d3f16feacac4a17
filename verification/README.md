# class_get

A client that logs in to a university course-selection site, lists the
courses on offer and keeps trying to enroll in the ones chosen in
`config.yaml` (`account`, `password`, `class`, `url`, and an optional
`classtype` of `TJKC` for the specialized list).

- `src/` is the verified library (Verus): the course list and the text
  shown for it, the enrollment requests and the judgement of the server's
  replies, the login form and password encryption, the captcha picture's
  data URI, and the choice of settings file.
- `app/` is the program around it: HTTP requests, files, the terminal,
  logging and the captcha recognizer.
- `tests/` runs the library on concrete values.
